use libogl::error::OglError;
use libogl::texture2d::{
    CubeFace, DecodedImage, Texture2D, Texture2DCubeMap, Texture2DFilter, TextureBinding,
};

fn ppm_2x2() -> Vec<u8> {
    let mut v = b"P6\n2 2\n255\n".to_vec();
    v.extend_from_slice(&[1, 2, 3, 4, 5, 6, 7, 8, 9, 10, 11, 12]);
    v
}

fn pgm_1x1() -> Vec<u8> {
    let mut v = b"P5\n1 1\n255\n".to_vec();
    v.push(200);
    v
}

#[test]
fn decodes_and_flips_rgb_image() {
    let mut t = Texture2D::new();
    assert_eq!(t.create_from_buffer(&ppm_2x2()), Ok(()));
    assert_eq!(t.width(), 2);
    assert_eq!(t.height(), 2);
    assert_eq!(t.bpp(), 3);
    assert_eq!(t.data(), &[7, 8, 9, 10, 11, 12, 1, 2, 3, 4, 5, 6]);
    assert_eq!(t.id(), 0);
    t.set_id(5);
    assert_eq!(t.id(), 5);
}

#[test]
fn rejects_undecodable_bytes() {
    let mut t = Texture2D::new();
    assert_eq!(t.create_from_buffer(&[1, 2, 3, 4]), Err(OglError::InvalidData));
    assert_eq!(t.create_from_buffer(&[]), Err(OglError::InvalidData));
    assert_eq!(t.width(), 0);
    assert!(t.data().is_empty());
}

#[test]
fn rejects_single_channel_image() {
    let mut t = Texture2D::new();
    assert_eq!(t.create_from_buffer(&pgm_1x1()), Err(OglError::InvalidData));
    assert_eq!(t.bpp(), 0);
}

#[test]
fn load_decoded_checks_channels_and_size() {
    let mut t = Texture2D::new();
    let two = DecodedImage { data: vec![0; 4], width: 1, height: 2, channels: 2 };
    assert_eq!(t.load_decoded(two), Err(OglError::InvalidData));
    let short = DecodedImage { data: vec![0; 7], width: 1, height: 2, channels: 4 };
    assert_eq!(t.load_decoded(short), Err(OglError::InvalidData));
    let ok = DecodedImage { data: (0u8..12).collect(), width: 1, height: 3, channels: 4 };
    assert_eq!(t.load_decoded(ok), Ok(()));
    assert_eq!(t.data(), &[8, 9, 10, 11, 4, 5, 6, 7, 0, 1, 2, 3]);
    assert_eq!(t.bpp(), 4);
}

#[test]
fn bind_accepts_units_zero_to_seven() {
    let mut t = Texture2D::new();
    t.set_id(9);
    for slot in 0..8 {
        assert_eq!(
            t.bind(slot, 3),
            Ok(TextureBinding { slot, texture: 9, location: 3 })
        );
    }
    assert_eq!(t.bind(8, 3), Err(OglError::InvalidData));
    assert_eq!(t.bind(-1, 3), Err(OglError::InvalidData));
}

#[test]
fn mipmapped_filters() {
    assert!(!Texture2DFilter::Nearest.generates_mipmaps());
    assert!(!Texture2DFilter::Linear.generates_mipmaps());
    assert!(Texture2DFilter::NearestMiMapNearest.generates_mipmaps());
    assert!(Texture2DFilter::LinearMiMapLinear.generates_mipmaps());
}

#[test]
fn cube_map_needs_six_faces() {
    let img = ppm_2x2();
    let mut c = Texture2DCubeMap::new();
    let five: Vec<&[u8]> = vec![&img, &img, &img, &img, &img];
    assert_eq!(c.create_from_buffer(&five), Err(OglError::InvalidData));
    assert_eq!(c.right().width, 0);

    let six: Vec<&[u8]> = vec![&img, &img, &img, &img, &img, &img];
    assert_eq!(c.create_from_buffer(&six), Ok(()));
    assert_eq!(c.front().width, 2);
    assert_eq!(c.left().bpp, 3);
    assert_eq!(c.top().data, vec![1, 2, 3, 4, 5, 6, 7, 8, 9, 10, 11, 12]);
}

#[test]
fn cube_map_rejects_a_bad_face() {
    let img = ppm_2x2();
    let bad = pgm_1x1();
    let mut c = Texture2DCubeMap::new();
    let faces: Vec<&[u8]> = vec![&img, &img, &img, &bad, &img, &img];
    assert_eq!(c.create_from_buffer(&faces), Err(OglError::InvalidData));
    assert_eq!(c.bottom().height, 0);
    c.set_id(4);
    assert_eq!(c.bind(8, 0), Err(OglError::InvalidData));
    assert_eq!(c.bind(0, 2), Ok(TextureBinding { slot: 0, texture: 4, location: 2 }));
}

#[test]
fn cube_face_from_decoded() {
    let ok = CubeFace::from_decoded(DecodedImage { data: vec![1; 3], width: 1, height: 1, channels: 3 });
    assert_eq!(ok.map(|f| (f.width, f.height, f.bpp)), Ok((1, 1, 3)));
    let bad = CubeFace::from_decoded(DecodedImage { data: vec![1; 5], width: 1, height: 1, channels: 5 });
    assert!(bad.is_err());
}
