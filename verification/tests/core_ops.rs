//! Tests of the verified integer core: centering, wrapping, the
//! split-halves layout, exact-size enforcement and batch chunking.

use fft_bridge::batch::{join_batch, split_batch};
use fft_bridge::centering::{to_centered, wrap_to_torus};
use fft_bridge::poly::{FreqPoly, TorusPoly};

#[test]
fn test_centering_values() {
    assert_eq!(to_centered(0), 0);
    assert_eq!(to_centered(1000), 1000);
    assert_eq!(to_centered(0x7FFF_FFFF), i32::MAX);
    assert_eq!(to_centered(0x8000_0000), i32::MIN);
    assert_eq!(to_centered(0xFFFF_FFFF), -1);
    assert_eq!(to_centered(0xFFFF_FE0C), -500);
}

#[test]
fn test_wrap_values() {
    assert_eq!(wrap_to_torus(0), 0);
    assert_eq!(wrap_to_torus(5), 5);
    assert_eq!(wrap_to_torus(-1), 0xFFFF_FFFF);
    assert_eq!(wrap_to_torus(-500), 0xFFFF_FE0C);
    assert_eq!(wrap_to_torus(0x1_0000_0000 + 7), 7);
    assert_eq!(wrap_to_torus(-0x1_0000_0000 - 1), 0xFFFF_FFFF);
    assert_eq!(wrap_to_torus(i64::MIN), 0);
    assert_eq!(wrap_to_torus(i64::MAX), 0xFFFF_FFFF);
}

#[test]
fn test_center_then_wrap_is_identity() {
    for c in [0u32, 1, 1000, 0x7FFF_FFFF, 0x8000_0000, 0x8000_0001, 0xFFFF_FFFF] {
        assert_eq!(wrap_to_torus(to_centered(c) as i64), c);
    }
}

#[test]
fn test_torus_poly_size_enforcement() {
    assert!(TorusPoly::from_vec(vec![0u32; 1023]).is_none());
    assert!(TorusPoly::from_vec(vec![0u32; 1025]).is_none());
    assert!(TorusPoly::from_vec(Vec::new()).is_none());
    let p = TorusPoly::from_vec(vec![7u32; 1024]);
    assert!(p.is_some());
    assert_eq!(p.unwrap().coeff(1023), 7);
}

#[test]
fn test_freq_poly_size_enforcement() {
    assert!(FreqPoly::from_vec(vec![0u64; 512]).is_none());
    assert!(FreqPoly::from_vec(vec![0u64; 1024]).is_some());
    assert!(FreqPoly::from_halves(&vec![0u64; 511], &vec![0u64; 512]).is_none());
    assert!(FreqPoly::from_halves(&vec![0u64; 512], &vec![0u64; 513]).is_none());
    assert!(FreqPoly::from_halves(&vec![0u64; 512], &vec![0u64; 512]).is_some());
    assert!(TorusPoly::from_rounded_halves(&vec![0i64; 512], &vec![0i64; 511]).is_none());
    assert!(TorusPoly::from_rounded_halves(&vec![0i64; 512], &vec![0i64; 512]).is_some());
}

#[test]
fn test_frequency_layout() {
    let re: Vec<u64> = (0..512u64).collect();
    let im: Vec<u64> = (0..512u64).map(|i| 100_000 + i).collect();
    let f = FreqPoly::from_halves(&re, &im).unwrap();
    for i in 0..512 {
        assert_eq!(f.word(i), re[i]);
        assert_eq!(f.word(i + 512), im[i]);
    }
    let (re2, im2) = f.halves();
    assert_eq!(re2, re);
    assert_eq!(im2, im);
}

#[test]
fn test_centered_halves_layout() {
    let mut v = vec![0u32; 1024];
    v[0] = 1000;
    v[100] = 0xFFFF_FFFF;
    v[512] = 300;
    v[1023] = 0x8000_0000;
    let p = TorusPoly::from_vec(v).unwrap();
    let (a, b) = p.centered_halves();
    assert_eq!(a.len(), 512);
    assert_eq!(b.len(), 512);
    assert_eq!(a[0], 1000);
    assert_eq!(a[100], -1);
    assert_eq!(b[0], 300);
    assert_eq!(b[511], i32::MIN);
    assert_eq!(a[1], 0);
}

#[test]
fn test_rounded_halves_wrap() {
    let mut re = vec![0i64; 512];
    let mut im = vec![0i64; 512];
    re[0] = 1000;
    re[1] = -1;
    im[0] = 300;
    im[2] = -500;
    let p = TorusPoly::from_rounded_halves(&re, &im).unwrap();
    assert_eq!(p.coeff(0), 1000);
    assert_eq!(p.coeff(1), 0xFFFF_FFFF);
    assert_eq!(p.coeff(512), 300);
    assert_eq!(p.coeff(514), 0xFFFF_FE0C);
    assert_eq!(p.coeff(700), 0);
}

#[test]
fn test_split_batch_size_enforcement() {
    assert!(split_batch(&vec![0u32; 1024], 2).is_none());
    assert!(split_batch(&vec![0u32; 2047], 2).is_none());
    assert!(split_batch(&vec![0u32; 2049], 2).is_none());
    assert!(split_batch(&vec![0u32; 1024], 0).is_none());
    assert!(split_batch(&Vec::new(), 0).is_some());
    assert!(split_batch(&vec![0u32; 2048], 2).is_some());
    assert!(split_batch(&vec![0u32; 1024], usize::MAX).is_none());
}

#[test]
fn test_split_batch_chunks() {
    let flat: Vec<u32> = (0..3 * 1024u32).collect();
    let polys = split_batch(&flat, 3).unwrap();
    assert_eq!(polys.len(), 3);
    for (i, p) in polys.iter().enumerate() {
        for j in 0..1024 {
            assert_eq!(p.coeff(j), (i * 1024 + j) as u32);
        }
    }
}

#[test]
fn test_join_batch_layout() {
    let f0 = FreqPoly::from_vec((0..1024u64).collect()).unwrap();
    let f1 = FreqPoly::from_vec((0..1024u64).map(|i| 5000 + i).collect()).unwrap();
    let joined = join_batch(&vec![f0, f1]);
    assert_eq!(joined.len(), 2048);
    for j in 0..1024u64 {
        assert_eq!(joined[j as usize], j);
        assert_eq!(joined[1024 + j as usize], 5000 + j);
    }
}
