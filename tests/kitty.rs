use rtfm_core::kitty::{
    push_decimal, write_delete_command, write_image_commands, Area, DrawError, KittyBackend,
};
use rtfm_core::raster::PreviewImage;

fn red_pixel() -> PreviewImage {
    PreviewImage { width: 1, height: 1, stride: 4, pixels: vec![255, 0, 0, 255] }
}

#[test]
fn test_kitty_draw() {
    let mut backend = KittyBackend::new();
    let img = PreviewImage {
        width: 1,
        height: 1,
        stride: 4,
        pixels: vec![255, 0, 0, 255], // A single red pixel
    };
    let area = Area::new(10, 5, 20, 30);
    let mut writer = Vec::new();

    backend.draw(&img, area, &mut writer).unwrap();

    let output = String::from_utf8(writer).unwrap();

    // 1. Check for cursor move
    assert!(output.contains("\x1b[6;11H"));

    // 2. Check for kitty protocol start
    assert!(output.contains("\x1b_Gf=100,a=T,c=20,r=30,i=1;"));

    // 3. Check for protocol end
    assert!(output.ends_with("\x1b\\"));

    // 4. Check clear
    let mut writer = Vec::new();
    backend.clear(&mut writer).unwrap();
    let output = String::from_utf8(writer).unwrap();
    assert_eq!(output, "\x1b_Ga=d,d=i,i=1\x1b\\");
}

#[test]
fn draw_after_clear_takes_next_id() {
    let mut backend = KittyBackend::new();
    let area = Area::new(10, 5, 20, 30);
    let mut first = Vec::new();
    backend.draw(&red_pixel(), area, &mut first).unwrap();
    let first = String::from_utf8(first).unwrap();
    assert!(first.starts_with("\x1b[6;11H\x1b_Gf=100,a=T,c=20,r=30,i=1;"));
    let mut cleared = Vec::new();
    backend.clear(&mut cleared).unwrap();
    assert_eq!(String::from_utf8(cleared).unwrap(), "\x1b_Ga=d,d=i,i=1\x1b\\");
    let mut again = Vec::new();
    backend.clear(&mut again).unwrap();
    assert!(again.is_empty());
    let mut second = Vec::new();
    backend.draw(&red_pixel(), area, &mut second).unwrap();
    let second = String::from_utf8(second).unwrap();
    assert!(second.starts_with("\x1b[6;11H\x1b_Gf=100,a=T,c=20,r=30,i=2;"));
}

#[test]
fn draw_replaces_previous_image() {
    let mut backend = KittyBackend::new();
    let mut out = Vec::new();
    backend.draw(&red_pixel(), Area::new(0, 0, 4, 2), &mut out).unwrap();
    let mut out = Vec::new();
    backend.draw(&red_pixel(), Area::new(1, 2, 3, 4), &mut out).unwrap();
    let out = String::from_utf8(out).unwrap();
    assert!(out.starts_with("\x1b_Ga=d,d=i,i=1\x1b\\\x1b[3;2H\x1b_Gf=100,a=T,c=3,r=4,i=2;"));
    assert!(out.ends_with("\x1b\\"));
}

#[test]
fn draw_payload_is_base64_png() {
    let mut backend = KittyBackend::new();
    let mut out = Vec::new();
    backend.draw(&red_pixel(), Area::new(0, 0, 1, 1), &mut out).unwrap();
    let out = String::from_utf8(out).unwrap();
    let start = out.find(';').unwrap();
    let start = out[start + 1..].find(';').unwrap() + start + 2;
    let payload = &out[start..out.len() - 2];
    // "\x89PNG" in base64
    assert!(payload.starts_with("iVBORw0KGgo"));
    assert_eq!(payload.len() % 4, 0);
}

#[test]
fn draw_rejects_short_buffer() {
    let mut backend = KittyBackend::new();
    let img = PreviewImage { width: 2, height: 1, stride: 8, pixels: vec![255, 0, 0, 255] };
    let mut out = Vec::new();
    assert_eq!(backend.draw(&img, Area::new(0, 0, 1, 1), &mut out), Err(DrawError::InvalidBuffer));
    assert!(out.is_empty());
    let mut out = Vec::new();
    backend.clear(&mut out).unwrap();
    assert!(out.is_empty());
}

#[test]
fn failed_draw_still_clears_previous_image() {
    let mut backend = KittyBackend::new();
    let mut out = Vec::new();
    backend.draw(&red_pixel(), Area::new(0, 0, 1, 1), &mut out).unwrap();
    let bad = PreviewImage { width: 1, height: 1, stride: 4, pixels: vec![1, 2, 3] };
    let mut out = Vec::new();
    assert_eq!(backend.draw(&bad, Area::new(0, 0, 1, 1), &mut out), Err(DrawError::InvalidBuffer));
    assert_eq!(String::from_utf8(out).unwrap(), "\x1b_Ga=d,d=i,i=1\x1b\\");
    let mut out = Vec::new();
    backend.draw(&red_pixel(), Area::new(0, 0, 1, 1), &mut out).unwrap();
    assert!(String::from_utf8(out).unwrap().contains(",i=2;"));
}

#[test]
fn image_commands_encode_base64() {
    let mut out = Vec::new();
    write_image_commands(&mut out, Area::new(0, 9, 7, 65535), 300, b"Man");
    assert_eq!(
        String::from_utf8(out).unwrap(),
        "\x1b[10;1H\x1b_Gf=100,a=T,c=7,r=65535,i=300;TWFu\x1b\\"
    );
    let mut out = Vec::new();
    write_image_commands(&mut out, Area::new(65535, 0, 1, 1), 0, b"Ma");
    assert_eq!(String::from_utf8(out).unwrap(), "\x1b[1;65536H\x1b_Gf=100,a=T,c=1,r=1,i=0;TWE=\x1b\\");
    let mut out = Vec::new();
    write_image_commands(&mut out, Area::new(0, 0, 1, 1), 1, b"M\xff\xfe?");
    assert!(String::from_utf8(out).unwrap().contains(";Tf/+Pw==\x1b\\"));
}

#[test]
fn delete_command_and_decimals() {
    let mut out = vec![b'x'];
    write_delete_command(&mut out, 4294967295);
    assert_eq!(String::from_utf8(out).unwrap(), "x\x1b_Ga=d,d=i,i=4294967295\x1b\\");
    let mut digits = Vec::new();
    push_decimal(&mut digits, 0);
    push_decimal(&mut digits, 1207);
    assert_eq!(digits, b"01207".to_vec());
}
