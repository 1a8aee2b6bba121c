use elma_scene::atlas::pcx_size;
use elma_scene::scene::ImageSize;

fn header(x_min: u16, y_min: u16, x_max: u16, y_max: u16) -> Vec<u8> {
    let mut b = vec![10u8, 5, 1, 8];
    for w in [x_min, y_min, x_max, y_max] {
        b.extend_from_slice(&w.to_le_bytes());
    }
    b.extend_from_slice(&[0u8; 116]);
    b
}

#[test]
fn pcx_window_gives_size() {
    assert_eq!(pcx_size(&header(0, 0, 639, 479)), Some(ImageSize { width: 640, height: 480 }));
    assert_eq!(pcx_size(&header(10, 20, 10, 300)), Some(ImageSize { width: 1, height: 281 }));
}

#[test]
fn pcx_rejects_what_is_no_header() {
    assert_eq!(pcx_size(&vec![]), None);
    assert_eq!(pcx_size(&header(0, 0, 9, 9)[..11].to_vec()), None);
    let mut wrong = header(0, 0, 9, 9);
    wrong[0] = 11;
    assert_eq!(pcx_size(&wrong), None);
    assert_eq!(pcx_size(&header(5, 0, 4, 9)), None);
    assert_eq!(pcx_size(&header(0, 5, 9, 4)), None);
}
