use pointcloud::projection::process_point_cloud;
use pointcloud::texcoord::{coord_bits, scale_and_clamp};
use pointcloud::texture::{get_texcolor, ColorImage, Rgb, TexCoord};

fn bits(x: f32) -> u32 {
    x.to_bits()
}

fn raw(x: f32) -> i32 {
    x.to_bits() as i32
}

fn image_with_pixel(width: usize, height: usize, x: usize, y: usize, c: Rgb) -> ColorImage {
    let stride = width * 3;
    let mut data = vec![0u8; stride * height];
    let o = x * 3 + y * stride;
    data[o] = c.r;
    data[o + 1] = c.g;
    data[o + 2] = c.b;
    ColorImage::new(width, height, 3, stride, data).unwrap()
}

#[test]
fn coord_bits_keeps_the_bit_pattern() {
    assert_eq!(coord_bits(0x3f00_0000), 0x3f00_0000);
    assert_eq!(f32::from_bits(coord_bits(raw(0.5))), 0.5);
    assert_eq!(f32::from_bits(coord_bits(raw(-0.25))), -0.25);
    assert_eq!(coord_bits(-1), 0xffff_ffff);
    assert_eq!(coord_bits(i32::MIN), 0x8000_0000);
}

#[test]
fn scale_and_clamp_maps_the_unit_interval() {
    assert_eq!(scale_and_clamp(bits(0.0), 640), Some(0));
    assert_eq!(scale_and_clamp(bits(-0.0), 640), Some(0));
    assert_eq!(scale_and_clamp(bits(0.5), 640), Some(320));
    assert_eq!(scale_and_clamp(bits(0.25), 480), Some(120));
    assert_eq!(scale_and_clamp(bits(0.999), 640), Some(639));
    assert_eq!(scale_and_clamp(f32::from_bits(0x3f7f_ffff).to_bits(), 640), Some(639));
    assert_eq!(scale_and_clamp(bits(0.3), 10), Some(3));
    assert_eq!(scale_and_clamp(f32::MIN_POSITIVE.to_bits(), 640), Some(0));
    assert_eq!(scale_and_clamp(1, 640), Some(0));
}

#[test]
fn scale_and_clamp_rejects_outside_values() {
    assert_eq!(scale_and_clamp(bits(1.0), 640), None);
    assert_eq!(scale_and_clamp(bits(1.5), 640), None);
    assert_eq!(scale_and_clamp(bits(-0.1), 640), None);
    assert_eq!(scale_and_clamp(bits(-1.0e-40), 640), None);
    assert_eq!(scale_and_clamp(bits(f32::NAN), 640), None);
    assert_eq!(scale_and_clamp(bits(f32::INFINITY), 640), None);
    assert_eq!(scale_and_clamp(bits(f32::NEG_INFINITY), 640), None);
}

#[test]
fn clamping_edges() {
    for w in [1usize, 2, 3, 480, 640, 1920] {
        assert_eq!(scale_and_clamp(bits(0.0), w), Some(0));
        assert_eq!(scale_and_clamp(0x3f7f_ffff, w), Some(w - 1));
        assert_eq!(scale_and_clamp(bits(1.0), w), None);
    }
}

#[test]
fn color_image_rejects_short_buffers() {
    assert!(ColorImage::new(2, 2, 3, 6, vec![0u8; 12]).is_some());
    assert!(ColorImage::new(2, 2, 3, 6, vec![0u8; 11]).is_none());
    assert!(ColorImage::new(2, 2, 3, 8, vec![0u8; 14]).is_some());
    assert!(ColorImage::new(2, 2, 3, 5, vec![0u8; 12]).is_none());
    assert!(ColorImage::new(0, 2, 3, 6, vec![0u8; 12]).is_none());
    assert!(ColorImage::new(2, 0, 3, 6, vec![0u8; 12]).is_none());
    assert!(ColorImage::new(2, 2, 2, 6, vec![0u8; 12]).is_none());
    assert!(ColorImage::new(2, usize::MAX, 3, usize::MAX, vec![0u8; 12]).is_none());
    let img = ColorImage::new(2, 3, 4, 9, vec![7u8; 26]).unwrap();
    assert_eq!((img.width(), img.height(), img.bytes_per_pixel(), img.stride()), (2, 3, 4, 9));
    assert_eq!(img.data().len(), 26);
}

#[test]
fn sample_reads_the_selected_pixel() {
    let c = Rgb { r: 200, g: 100, b: 50 };
    let img = image_with_pixel(640, 480, 320, 240, c);
    assert_eq!(img.sample(TexCoord { u: bits(0.5), v: bits(0.5) }), c);
    assert_eq!(img.sample(TexCoord { u: bits(0.49), v: bits(0.5) }), Rgb::black());
    let padded = {
        let mut data = vec![0u8; 8 + 6];
        data[8 + 3] = 9;
        data[8 + 4] = 8;
        data[8 + 5] = 7;
        ColorImage::new(2, 2, 3, 8, data).unwrap()
    };
    let t = TexCoord { u: bits(0.75), v: bits(0.75) };
    assert_eq!(padded.sample(t), Rgb { r: 9, g: 8, b: 7 });
}

#[test]
fn sample_out_of_view_is_black() {
    let img = ColorImage::new(4, 4, 3, 12, vec![255u8; 48]).unwrap();
    assert_eq!(img.sample(TexCoord { u: bits(1.5), v: bits(0.2) }), Rgb::black());
    assert_eq!(img.sample(TexCoord { u: bits(0.2), v: bits(1.0) }), Rgb::black());
    assert_eq!(img.sample(TexCoord { u: bits(-0.5), v: bits(0.2) }), Rgb::black());
    assert_eq!(img.sample(TexCoord { u: bits(f32::NAN), v: bits(0.2) }), Rgb::black());
    assert_eq!(img.sample(TexCoord { u: bits(0.2), v: bits(0.2) }), Rgb { r: 255, g: 255, b: 255 });
    assert_eq!(get_texcolor(&img, &[raw(1.5), raw(0.2)]), Rgb { r: 0, g: 0, b: 0 });
}

#[test]
fn sample_never_reads_outside_the_buffer() {
    let img = ColorImage::new(7, 5, 3, 21, vec![1u8; 105]).unwrap();
    let mut u = -1.0f32;
    while u <= 2.0 {
        let mut v = -1.0f32;
        while v <= 2.0 {
            let c = img.sample(TexCoord { u: bits(u), v: bits(v) });
            let inside = (0.0..1.0).contains(&u) && (0.0..1.0).contains(&v);
            assert_eq!(c == (Rgb { r: 1, g: 1, b: 1 }), inside);
            v += 0.0625;
        }
        u += 0.0625;
    }
}

#[test]
fn get_texcolor_reads_raw_coordinates() {
    let c = Rgb { r: 1, g: 2, b: 3 };
    let img = image_with_pixel(4, 2, 3, 1, c);
    assert_eq!(get_texcolor(&img, &[raw(0.9), raw(0.6)]), c);
    assert_eq!(get_texcolor(&img, &[raw(0.1), raw(0.6)]), Rgb::black());
}

#[test]
fn single_valid_sample_end_to_end() {
    let (w, h) = (640usize, 480usize);
    let c = Rgb { r: 200, g: 100, b: 50 };
    let img = image_with_pixel(w, h, 320, 240, c);
    let mut vertices: Vec<[f32; 3]> = Vec::new();
    let mut coords: Vec<[i32; 2]> = Vec::new();
    for y in 0..h {
        for x in 0..w {
            if (x, y) == (320, 240) {
                vertices.push([0.0, 0.0, 1.25]);
                coords.push([raw(0.5), raw(0.5)]);
            } else {
                vertices.push([0.0, 0.0, 0.0]);
                coords.push([raw(-1.0), raw(-1.0)]);
            }
        }
    }
    let points = process_point_cloud(&vertices, &coords, &img);
    assert_eq!(points.len(), w * h);
    let (xyz, rgb) = points[240 * w + 320];
    assert_eq!(xyz, [0.0, 0.0, 1.25]);
    assert_eq!(rgb, c);
    let norm = |b: u8| b as f32 / 255.0;
    assert!((norm(rgb.r) - 0.784).abs() < 1e-3);
    assert!((norm(rgb.g) - 0.392).abs() < 1e-3);
    assert!((norm(rgb.b) - 0.196).abs() < 1e-3);
    let colored = points.iter().filter(|(_, c)| *c != Rgb::black()).count();
    assert_eq!(colored, 1);
}

#[test]
fn projection_keeps_order_and_is_reproducible() {
    let mut data = vec![0u8; 12];
    for (i, b) in data.iter_mut().enumerate() {
        *b = i as u8 + 1;
    }
    let img = ColorImage::new(2, 2, 3, 6, data).unwrap();
    let vertices: Vec<u32> = vec![10, 20, 30, 40, 50];
    let coords = vec![
        [raw(0.75), raw(0.75)],
        [raw(0.0), raw(0.0)],
        [raw(1.0), raw(0.0)],
        [raw(0.0), raw(0.5)],
    ];
    let first = process_point_cloud(&vertices, &coords, &img);
    let second = process_point_cloud(&vertices, &coords, &img);
    assert_eq!(first, second);
    assert_eq!(
        first,
        vec![
            (10, Rgb { r: 10, g: 11, b: 12 }),
            (20, Rgb { r: 1, g: 2, b: 3 }),
            (30, Rgb::black()),
            (40, Rgb { r: 7, g: 8, b: 9 }),
        ]
    );
    assert!(process_point_cloud(&Vec::<u32>::new(), &coords, &img).is_empty());
}
