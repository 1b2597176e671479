use zenavif::planes::{chroma_plane_dims, yuv420_planes_at_depth, Yuv420Planes};

#[test]
fn chroma_dims_round_up() {
    assert_eq!(chroma_plane_dims(5, 3, true), (3, 2));
    assert_eq!(chroma_plane_dims(4, 4, true), (2, 2));
    assert_eq!(chroma_plane_dims(5, 3, false), (5, 3));
    assert_eq!(chroma_plane_dims(0, 1, true), (0, 1));
}

#[test]
fn planes_narrow_at_eight_bits() {
    let p = yuv420_planes_at_depth(vec![1, 255, 256], vec![7], vec![300], 8);
    assert_eq!(p.bit_depth(), 8);
    match p {
        Yuv420Planes::Eight { y, u, v } => {
            assert_eq!(y, vec![1, 255, 0]);
            assert_eq!(u, vec![7]);
            assert_eq!(v, vec![44]);
        }
        Yuv420Planes::Ten { .. } => panic!("expected 8-bit planes"),
    }
    let p = yuv420_planes_at_depth(vec![1023], vec![0], vec![512], 10);
    assert_eq!(p.bit_depth(), 10);
    match p {
        Yuv420Planes::Ten { y, .. } => assert_eq!(y, vec![1023]),
        Yuv420Planes::Eight { .. } => panic!("expected 10-bit planes"),
    }
}
