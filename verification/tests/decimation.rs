use midi_waveform::waveform::decimation_index;
use midi_waveform::waveform::decimation_indices;
use midi_waveform::waveform::WAVEFORM_LENGTH;

#[test]
fn waveform_length_is_fixed() {
    assert_eq!(WAVEFORM_LENGTH, 1024);
}

#[test]
fn decimation_index_floors_the_scaled_position() {
    assert_eq!(decimation_index(0, 1024, 2205), 0);
    assert_eq!(decimation_index(1, 1024, 2205), 2);
    assert_eq!(decimation_index(512, 1024, 2205), 1102);
    assert_eq!(decimation_index(1023, 1024, 2205), 2202);
}

#[test]
fn decimation_index_stays_inside_the_block() {
    for i in 0..1024 {
        let j = decimation_index(i, 1024, 2205);
        assert!(j < 2205);
    }
}

#[test]
fn decimation_indices_list_every_slot() {
    let v = decimation_indices(4, 8);
    assert_eq!(v, vec![0, 2, 4, 6]);
    let w = decimation_indices(1024, 2205);
    assert_eq!(w.len(), 1024);
    assert_eq!(w[0], 0);
    assert_eq!(w[1023], 2202);
    for i in 1..1024 {
        assert!(w[i - 1] <= w[i]);
        assert!(w[i] < 2205);
    }
}

#[test]
fn decimation_of_an_empty_block_reads_frame_zero() {
    let v = decimation_indices(5, 0);
    assert_eq!(v, vec![0, 0, 0, 0, 0]);
}
