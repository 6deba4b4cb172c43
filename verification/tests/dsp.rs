use rtl_scanner::dsp::{dc_correction, normalize, rtl_import, rtl_to_power, UNIT};
use rtl_scanner::error::ValidationError;

#[test]
fn normalize_centres_every_byte() {
    let capture = vec![0u8, 127, 254, 255, 1, 128];
    let mut out = vec![0i64; 6];
    assert_eq!(Ok(()), normalize(&capture, &mut out));
    assert_eq!(vec![-127, 0, 127, 128, -126, 1], out);
}

#[test]
fn normalized_values_lie_within_the_unit() {
    let capture: Vec<u8> = (0..=254u8).chain(0..=0).collect();
    let mut out = vec![0i64; capture.len()];
    assert_eq!(Ok(()), normalize(&capture, &mut out));
    assert_eq!(capture.len(), out.len());
    for value in &out {
        assert!(-UNIT <= *value && *value <= UNIT);
        let sample = *value as f64 / UNIT as f64;
        assert!(-1.0 <= sample && sample <= 1.0);
    }
}

#[test]
fn the_highest_byte_lies_just_above_the_unit() {
    let mut out = vec![0i64; 2];
    assert_eq!(Ok(()), normalize(&vec![255, 255], &mut out));
    assert_eq!(vec![128, 128], out);
}

#[test]
fn normalize_refuses_an_odd_capture() {
    let mut out = vec![5i64; 3];
    assert_eq!(Err(ValidationError::OddLength), normalize(&vec![1, 2, 3], &mut out));
    assert_eq!(vec![5, 5, 5], out);
}

#[test]
fn normalize_refuses_another_length() {
    let mut out = vec![5i64; 2];
    assert_eq!(Err(ValidationError::SizeMismatch), normalize(&vec![1, 2, 3, 4], &mut out));
    assert_eq!(vec![5, 5], out);
    let mut odd = vec![5i64; 3];
    assert_eq!(Err(ValidationError::SizeMismatch), normalize(&vec![1, 2, 3, 4], &mut odd));
}

#[test]
fn normalize_of_nothing() {
    let mut out: Vec<i64> = Vec::new();
    assert_eq!(Ok(()), normalize(&Vec::new(), &mut out));
    assert!(out.is_empty());
}

#[test]
fn dc_correction_removes_both_means() {
    // real parts 1, 2, 6 (sum 9), imaginary parts 10, 20, 60 (sum 90), n = 3
    let mut data = vec![1i64, 10, 2, 20, 6, 60];
    assert_eq!(Ok(()), dc_correction(&mut data));
    assert_eq!(vec![3 - 9, 30 - 90, 6 - 9, 60 - 90, 18 - 9, 180 - 90], data);
    let re: i64 = data.iter().step_by(2).sum();
    let im: i64 = data.iter().skip(1).step_by(2).sum();
    assert_eq!(0, re);
    assert_eq!(0, im);
}

#[test]
fn dc_correction_of_a_constant_is_zero() {
    let mut data = vec![-127i64; 512];
    assert_eq!(Ok(()), dc_correction(&mut data));
    assert_eq!(vec![0i64; 512], data);
}

#[test]
fn dc_correction_twice_scales_again() {
    let mut data = vec![1i64, 0, 3, 0];
    assert_eq!(Ok(()), dc_correction(&mut data));
    assert_eq!(vec![-2, 0, 2, 0], data);
    assert_eq!(Ok(()), dc_correction(&mut data));
    assert_eq!(vec![-4, 0, 4, 0], data);
}

#[test]
fn dc_correction_refuses_an_odd_buffer() {
    let mut data = vec![1i64, 2, 3];
    assert_eq!(Err(ValidationError::OddLength), dc_correction(&mut data));
    assert_eq!(vec![1, 2, 3], data);
}

#[test]
fn dc_correction_refuses_what_does_not_fit() {
    let mut data = vec![i64::MAX, 0, i64::MIN, 0];
    assert_eq!(Err(ValidationError::OutOfRange), dc_correction(&mut data));
    assert_eq!(vec![i64::MAX, 0, i64::MIN, 0], data);
}

#[test]
fn dc_correction_at_the_edge_of_the_range() {
    // n = 1: every value less itself
    let mut data = vec![i64::MAX, i64::MIN];
    assert_eq!(Ok(()), dc_correction(&mut data));
    assert_eq!(vec![0, 0], data);
    let mut empty: Vec<i64> = Vec::new();
    assert_eq!(Ok(()), dc_correction(&mut empty));
}

#[test]
fn import_centres_and_removes_the_mean() {
    let capture = vec![127u8, 0, 129, 254, 131, 127, 133, 127];
    let mut out = vec![0i64; 8];
    assert_eq!(Ok(()), rtl_import(&capture, 8, &mut out));
    // centred: re 0, 2, 4, 6 (sum 12); im -127, 127, 0, 0 (sum 0); n = 4
    assert_eq!(vec![-12, -508, -4, 508, 4, 0, 12, 0], out);
    assert_ne!(vec![0, -127, 2, 127, 4, 0, 6, 0], out);
}

#[test]
fn import_takes_the_first_bytes_only() {
    let capture = vec![128u8, 127, 126, 127, 99, 99];
    let mut out = vec![0i64; 4];
    assert_eq!(Ok(()), rtl_import(&capture, 4, &mut out));
    assert_eq!(vec![2, 0, -2, 0], out);
}

#[test]
fn import_refuses_malformed_lengths() {
    let capture = vec![1u8, 2, 3, 4];
    let mut out = vec![7i64; 4];
    assert_eq!(Err(ValidationError::OddLength), rtl_import(&capture, 3, &mut out));
    assert_eq!(Err(ValidationError::SizeMismatch), rtl_import(&capture, 6, &mut out));
    assert_eq!(Err(ValidationError::SizeMismatch), rtl_import(&capture, 2, &mut out));
    assert_eq!(vec![7, 7, 7, 7], out);
}

#[test]
fn power_of_every_sample() {
    let capture = vec![127u8, 127, 130, 123, 0, 255, 255, 0];
    assert_eq!(
        Ok(vec![0, 9 + 16, 127 * 127 + 128 * 128, 128 * 128 + 127 * 127]),
        rtl_to_power(&capture, 8)
    );
    assert_eq!(Ok(vec![0, 25]), rtl_to_power(&capture, 4));
    assert_eq!(Ok(vec![]), rtl_to_power(&capture, 0));
}

#[test]
fn power_refuses_malformed_lengths() {
    let capture = vec![127u8, 127, 130, 123];
    assert_eq!(Err(ValidationError::OddLength), rtl_to_power(&capture, 3));
    assert_eq!(Err(ValidationError::OddLength), rtl_to_power(&capture, 5));
    assert_eq!(Err(ValidationError::SizeMismatch), rtl_to_power(&capture, 6));
}

#[test]
fn compare_to_matlab() {
    let epsilon: f64 = 0.000000000000001;
    // Two rows of a dump, and what floating-point arithmetic makes of them.
    let dump: Vec<Vec<u8>> = vec![
        (0..64u32).map(|i| ((i * 37 + 11) % 256) as u8).collect(),
        (0..64u32).map(|i| ((i * i + 3 * i + 120) % 256) as u8).collect(),
    ];
    for row in &dump {
        let mut normalized = vec![0i64; row.len()];
        assert_eq!(Ok(()), normalize(row, &mut normalized));
        let n: Vec<f64> = row.iter().map(|b| ((*b as i16) - 127) as f64 / 127_f64).collect();
        for i in 0..row.len() {
            assert!((n[i] - normalized[i] as f64 / UNIT as f64).abs() < epsilon);
        }

        let pairs = row.len() / 2;
        let mut re_sum = 0_f64;
        let mut im_sum = 0_f64;
        for i in 0..pairs {
            re_sum += n[i * 2];
            im_sum += n[i * 2 + 1];
        }
        re_sum /= pairs as f64;
        im_sum /= pairs as f64;
        let ca: Vec<f64> = (0..row.len())
            .map(|i| n[i] - if i % 2 == 0 { re_sum } else { im_sum })
            .collect();

        let mut corrected = normalized.clone();
        assert_eq!(Ok(()), dc_correction(&mut corrected));
        let divisor = (UNIT * pairs as i64) as f64;
        for i in 0..row.len() {
            assert!((ca[i] - corrected[i] as f64 / divisor).abs() < epsilon);
        }

        let mut imported = vec![0i64; row.len()];
        assert_eq!(Ok(()), rtl_import(row, row.len(), &mut imported));
        assert_eq!(corrected, imported);
    }
}

#[test]
fn mean_after_correction_is_zero() {
    let capture: Vec<u8> = (0..1024u32).map(|i| ((i * 7919) % 251) as u8).collect();
    let mut out = vec![0i64; capture.len()];
    assert_eq!(Ok(()), rtl_import(&capture, capture.len(), &mut out));
    let re: i64 = out.iter().step_by(2).sum();
    let im: i64 = out.iter().skip(1).step_by(2).sum();
    assert_eq!(0, re);
    assert_eq!(0, im);
    let divisor = (UNIT * 512) as f64;
    let mean_re = out.iter().step_by(2).map(|v| *v as f64 / divisor).sum::<f64>() / 512.0;
    let mean_im = out.iter().skip(1).step_by(2).map(|v| *v as f64 / divisor).sum::<f64>() / 512.0;
    assert!(mean_re.abs() < f64::EPSILON);
    assert!(mean_im.abs() < f64::EPSILON);
}
