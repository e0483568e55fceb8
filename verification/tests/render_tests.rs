use image::ImageBuffer;
use image::Rgb;
use mandelbrot_core::palette::iterations_to_color;
use mandelbrot_core::palette::Shade;
use mandelbrot_core::render::generate_mandelbrot_img;
use mandelbrot_core::scheme::ColorScheme;
use mandelbrot_core::HEIGHT;
use mandelbrot_core::MAX_ITERATIONS;
use mandelbrot_core::WIDTH;
use num_complex::Complex64;

fn escape_count(c: Complex64) -> u32 {
    let mut z = Complex64::new(0.0, 0.0);
    let mut iterations = 0;
    while iterations < MAX_ITERATIONS && z.norm_sqr() <= 4.0 {
        z = z * z + c;
        iterations += 1;
    }
    iterations
}

fn pixel_counts(center_re: f64, center_im: f64, zoom: f64, width: u32, height: u32) -> Vec<u32> {
    let scale = 4.0 / zoom;
    let re_min = center_re - scale / 2.0;
    let im_min = center_im - scale / 2.0;
    let mut counts = Vec::new();
    for y in 0..height {
        for x in 0..width {
            let c = Complex64::new(
                re_min + (x as f64 / width as f64) * scale,
                im_min + (y as f64 / height as f64) * scale,
            );
            counts.push(escape_count(c));
        }
    }
    counts
}

fn greyscale_palette() -> Vec<(u8, u8, u8)> {
    let mut palette = Vec::new();
    for count in 0..=MAX_ITERATIONS {
        let color = match iterations_to_color(count, MAX_ITERATIONS, &ColorScheme::Greyscale) {
            Shade::Black => (0, 0, 0),
            Shade::Grey => {
                let v = (count as f64 / MAX_ITERATIONS as f64 * 255.0) as u8;
                (v, v, v)
            }
            other => panic!("unexpected rule {:?}", other),
        };
        palette.push(color);
    }
    palette
}

#[test]
fn configured_size_is_two_thousand_square() {
    assert_eq!(WIDTH, 2000);
    assert_eq!(HEIGHT, 2000);
    assert_eq!(MAX_ITERATIONS, 1000);
}

#[test]
fn buffer_has_the_size_asked_for() {
    let palette = vec![(1, 2, 3)];
    for (width, height) in [(1u32, 1u32), (3, 2), (2, 3), (50, 50), (7, 1), (1, 7), (64, 17)] {
        let counts = vec![0u32; (width * height) as usize];
        let buffer = generate_mandelbrot_img(width, height, &counts, &palette);
        assert_eq!(buffer.dimensions(), (width, height));
        assert_eq!(buffer.into_raw().len(), (3 * width * height) as usize);
    }
}

#[test]
fn empty_images_keep_their_size() {
    let palette: Vec<(u8, u8, u8)> = Vec::new();
    let counts: Vec<u32> = Vec::new();
    assert_eq!(generate_mandelbrot_img(0, 0, &counts, &palette).dimensions(), (0, 0));
    assert_eq!(generate_mandelbrot_img(5, 0, &counts, &palette).dimensions(), (5, 0));
    assert_eq!(generate_mandelbrot_img(0, 5, &counts, &palette).dimensions(), (0, 5));
    assert!(generate_mandelbrot_img(5, 0, &counts, &palette).into_raw().is_empty());
}

#[test]
fn size_does_not_depend_on_the_viewport() {
    let palette = greyscale_palette();
    for (re, im, zoom) in [(-0.75, 0.1, 500.0), (100.0, 100.0, 1.0), (0.0, 0.0, 1.0e6)] {
        let counts = pixel_counts(re, im, zoom, 20, 10);
        let buffer = generate_mandelbrot_img(20, 10, &counts, &palette);
        assert_eq!(buffer.dimensions(), (20, 10));
    }
}

#[test]
fn every_pixel_gets_the_colour_of_its_count() {
    let palette = vec![(10, 11, 12), (20, 21, 22), (30, 31, 32), (0, 0, 0)];
    let counts = vec![0, 1, 2, 3, 2, 1];
    let raw = generate_mandelbrot_img(3, 2, &counts, &palette).into_raw();
    assert_eq!(
        raw,
        vec![10, 11, 12, 20, 21, 22, 30, 31, 32, 0, 0, 0, 30, 31, 32, 20, 21, 22]
    );
}

#[test]
fn rows_run_from_the_top_without_a_flip() {
    let palette = vec![(0, 0, 0), (255, 0, 0), (0, 255, 0), (0, 0, 255)];
    let counts = vec![1, 0, 0, 2, 0, 3];
    let buffer = generate_mandelbrot_img(2, 3, &counts, &palette);
    let image: ImageBuffer<Rgb<u8>, Vec<u8>> =
        ImageBuffer::from_raw(2, 3, buffer.into_raw()).unwrap();
    assert_eq!(*image.get_pixel(0, 0), Rgb([255, 0, 0]));
    assert_eq!(*image.get_pixel(1, 0), Rgb([0, 0, 0]));
    assert_eq!(*image.get_pixel(0, 1), Rgb([0, 0, 0]));
    assert_eq!(*image.get_pixel(1, 1), Rgb([0, 255, 0]));
    assert_eq!(*image.get_pixel(0, 2), Rgb([0, 0, 0]));
    assert_eq!(*image.get_pixel(1, 2), Rgb([0, 0, 255]));
}

#[test]
fn no_pixel_is_left_blank() {
    let palette = vec![(9, 9, 9)];
    let counts = vec![0u32; 50 * 50];
    let raw = generate_mandelbrot_img(50, 50, &counts, &palette).into_raw();
    assert!(raw.iter().all(|&v| v == 9));
}

#[test]
fn members_come_out_black() {
    let palette = greyscale_palette();
    let counts = vec![MAX_ITERATIONS; 16];
    let raw = generate_mandelbrot_img(4, 4, &counts, &palette).into_raw();
    assert!(raw.iter().all(|&v| v == 0));
}

#[test]
fn rendering_twice_gives_the_same_bytes() {
    let palette = greyscale_palette();
    let first_counts = pixel_counts(-0.75, 0.1, 500.0, 50, 50);
    let second_counts = pixel_counts(-0.75, 0.1, 500.0, 50, 50);
    let first = generate_mandelbrot_img(50, 50, &first_counts, &palette).into_raw();
    let second = generate_mandelbrot_img(50, 50, &second_counts, &palette).into_raw();
    assert_eq!(first.len(), 50 * 50 * 3);
    assert_eq!(first, second);
    assert!(first.iter().any(|&v| v != 0));
}

#[test]
fn greyscale_image_has_equal_channels() {
    let palette = greyscale_palette();
    let counts = pixel_counts(-0.75, 0.1, 500.0, 50, 50);
    let raw = generate_mandelbrot_img(50, 50, &counts, &palette).into_raw();
    for (pixel, &count) in raw.chunks(3).zip(counts.iter()) {
        assert_eq!(pixel[0], pixel[1]);
        assert_eq!(pixel[1], pixel[2]);
        let expected =
            if count == MAX_ITERATIONS { 0 } else { (count as f64 / 1000.0 * 255.0) as u8 };
        assert_eq!(pixel[0], expected);
    }
}
