use rviv::decode::RgbaImage;
use rviv::wallpaper::{
    pixmap_data, task_for, wallpaper_requests, Pixmap, Property, Request, Screen, Task,
    ATOM_PIXMAP, REPLACE,
};
use x11rb::protocol::xproto;

fn screen(depths: Vec<u8>) -> Screen {
    Screen { width: 1920, height: 1080, root_depth: 24, depths }
}

fn image(width: u32, height: u32, pixels: Vec<u8>) -> RgbaImage {
    RgbaImage { width, height, pixels }
}

fn painting(pixmap: Pixmap, depth: u8) -> Request {
    Request::PutImage {
        pixmap,
        depth,
        width: 300,
        height: 200,
        x: 0,
        y: 0,
        pixel: 32,
        pad: 32,
        low_first: true,
    }
}

fn naming(property: Property, pixmap: Pixmap) -> Request {
    Request::SetProperty { property, pixmap, mode: REPLACE, kind: ATOM_PIXMAP, format: 32 }
}

#[test]
fn atoms_and_modes_have_the_numbers_of_the_protocol() {
    assert_eq!(REPLACE, u8::from(xproto::PropMode::REPLACE));
    assert_eq!(ATOM_PIXMAP, u32::from(xproto::AtomEnum::PIXMAP));
}

#[test]
fn the_wallpaper_is_only_set_on_x11() {
    assert_eq!(task_for(false, false), Task::View);
    assert_eq!(task_for(false, true), Task::View);
    assert_eq!(task_for(true, false), Task::SetWallpaper);
    assert_eq!(task_for(true, true), Task::RefuseWallpaper);
}

#[test]
fn a_screen_with_alpha_gets_two_pixmaps() {
    let requests = wallpaper_requests(&screen(vec![1, 24, 32]), 300, 200);
    let expected = vec![
        Request::CreatePixmap { pixmap: Pixmap::Argb, depth: 32, width: 300, height: 200 },
        Request::CreateContext { pixmap: Pixmap::Argb },
        painting(Pixmap::Argb, 32),
        Request::FreeContext { pixmap: Pixmap::Argb },
        Request::CreatePixmap { pixmap: Pixmap::Root, depth: 24, width: 300, height: 200 },
        Request::CreateContext { pixmap: Pixmap::Root },
        painting(Pixmap::Root, 24),
        Request::FreeContext { pixmap: Pixmap::Root },
        naming(Property::XrootpmapId, Pixmap::Argb),
        naming(Property::EsetrootPmapId, Pixmap::Argb),
        Request::SetBackground { pixmap: Pixmap::Root },
        Request::ClearArea { exposures: false, x: 0, y: 0, width: 1920, height: 1080 },
        Request::RetainPermanently,
        Request::Flush,
    ];
    assert_eq!(requests, expected);
}

#[test]
fn a_screen_without_alpha_gets_one_pixmap() {
    let requests = wallpaper_requests(&screen(vec![1, 24]), 300, 200);
    assert_eq!(requests.len(), 10);
    assert_eq!(
        requests[0],
        Request::CreatePixmap { pixmap: Pixmap::Root, depth: 24, width: 300, height: 200 }
    );
    assert!(requests.contains(&naming(Property::XrootpmapId, Pixmap::Root)));
    assert!(requests.contains(&naming(Property::EsetrootPmapId, Pixmap::Root)));
    assert!(!requests.contains(&Request::CreateContext { pixmap: Pixmap::Argb }));
}

#[test]
fn properties_have_their_names() {
    assert_eq!(Property::XrootpmapId.name(), "_XROOTPMAP_ID");
    assert_eq!(Property::EsetrootPmapId.name(), "ESETROOT_PMAP_ID");
}

#[test]
fn lengths_are_cut_to_sixteen_bits() {
    let requests = wallpaper_requests(&screen(Vec::new()), 65536 + 7, 65535);
    assert_eq!(
        requests[0],
        Request::CreatePixmap { pixmap: Pixmap::Root, depth: 24, width: 7, height: 65535 }
    );
}

#[test]
fn contexts_are_freed_after_each_use() {
    let requests = wallpaper_requests(&screen(vec![32]), 3, 2);
    for (i, request) in requests.iter().enumerate() {
        if let Request::PutImage { pixmap, depth, width, height, .. } = *request {
            assert_eq!(requests[i - 2], Request::CreatePixmap { pixmap, depth, width, height });
            assert_eq!(requests[i - 1], Request::CreateContext { pixmap });
            assert_eq!(requests[i + 1], Request::FreeContext { pixmap });
        }
    }
}

#[test]
fn the_pixmap_with_alpha_has_blue_first() {
    let picture = image(2, 1, vec![1, 2, 3, 4, 50, 60, 70, 80]);
    assert_eq!(pixmap_data(&picture, Pixmap::Argb), vec![3, 2, 1, 4, 70, 60, 50, 80]);
}

#[test]
fn the_root_pixmap_is_composed_over_black() {
    let picture = image(2, 2, vec![
        255, 100, 10, 255, 255, 100, 10, 0, 255, 100, 10, 128, 200, 201, 202, 100,
    ]);
    assert_eq!(pixmap_data(&picture, Pixmap::Root), vec![
        10, 100, 255, 0, 0, 0, 0, 0, 5, 50, 128, 0, 79, 78, 78, 0,
    ]);
}

#[test]
fn composition_agrees_with_single_precision() {
    for alpha in 0..=255u32 {
        let mut pixels = Vec::new();
        for channel in 0..=255u32 {
            pixels.extend_from_slice(&[channel as u8, 0, 0, alpha as u8]);
        }
        let data = pixmap_data(&image(256, 1, pixels), Pixmap::Root);
        for channel in 0..=255usize {
            let opacity = alpha as f32 / 255.0;
            assert_eq!(data[4 * channel + 2], (channel as f32 * opacity) as u8);
        }
    }
}

#[test]
fn data_has_four_bytes_for_each_pixel() {
    for pixmap in [Pixmap::Argb, Pixmap::Root] {
        assert_eq!(pixmap_data(&image(5, 3, vec![9; 60]), pixmap).len(), 60);
        assert_eq!(pixmap_data(&image(0, 3, Vec::new()), pixmap).len(), 0);
    }
}

#[test]
fn exchanging_blue_and_red_twice_changes_nothing() {
    let pixels: Vec<u8> = (0..48).collect();
    let once = pixmap_data(&image(4, 3, pixels.clone()), Pixmap::Argb);
    assert_ne!(once, pixels);
    assert_eq!(pixmap_data(&image(4, 3, once), Pixmap::Argb), pixels);
}
