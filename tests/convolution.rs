use rust_gr::convolution::convolve_step;

#[test]
fn convolve_step_shifts_and_adds_shares() {
    let mut buffer: Vec<u64> = vec![1, 2, 3];
    let shares: Vec<u64> = vec![10, 20, 30];
    convolve_step(&mut buffer, &shares, |carry: u64, share: u64| carry + share);
    assert_eq!(buffer, vec![12, 23, 30]);
}

#[test]
fn convolve_step_single_slot_holds_share_alone() {
    let mut buffer: Vec<i64> = vec![7];
    let shares: Vec<i64> = vec![4];
    convolve_step(&mut buffer, &shares, |carry: i64, share: i64| carry + share);
    assert_eq!(buffer, vec![4]);
}

#[test]
fn convolve_step_empty_buffer_stays_empty() {
    let mut buffer: Vec<u64> = Vec::new();
    let shares: Vec<u64> = Vec::new();
    convolve_step(&mut buffer, &shares, |carry: u64, share: u64| carry + share);
    assert!(buffer.is_empty());
}

#[test]
fn convolve_step_spreads_injection_over_days() {
    let ordinates = vec![0.3629_f64, 0.6371_f64];
    let mut buffer = vec![0.0_f64; 2];
    let injection = 5.4335_f64;
    let shares: Vec<f64> = ordinates.iter().map(|o| injection * o).collect();
    convolve_step(&mut buffer, &shares, |carry: f64, share: f64| carry + share);
    assert!((buffer[0] - 1.97182).abs() < 0.001);
    assert!((buffer[1] - 3.46168).abs() < 0.001);
    let none = vec![0.0_f64; 2];
    convolve_step(&mut buffer, &none, |carry: f64, share: f64| carry + share);
    assert!((buffer[0] - 3.46168).abs() < 0.001);
    assert_eq!(buffer[1], 0.0);
}
