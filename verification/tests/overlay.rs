use piscatio::overlay;
use piscatio::overlay::font::{self, FontAtlas, Metrics};
use piscatio::overlay::icons::{self, Asset, IconRect, Image, Loaded};
use piscatio::overlay::{
    Corner, DeviceCall, InstallReply, InstallStage, LeaveStage, Need, Overlay, PanelText, Resources,
    Snapshot,
};

const NOW: u64 = 5_000_000_000;

fn installed(reset: Option<usize>) -> Overlay {
    let mut overlay = Overlay::new();
    let mut job = overlay::install(&mut overlay);
    job.tell(&mut overlay, InstallReply::Targets(Some(100), reset));
    job.tell(&mut overlay, InstallReply::Targets(Some(200), reset));
    loop {
        match job.stage {
            InstallStage::Present { target, .. } | InstallStage::Reset { target, .. } => {
                job.tell(&mut overlay, InstallReply::Original(Some(target + 1)));
            }
            InstallStage::Font => job.tell(&mut overlay, InstallReply::Done),
            InstallStage::Over(done) => {
                assert!(done);
                return overlay;
            }
            _ => panic!("probed again"),
        }
    }
}

#[test]
fn overlay_comes_by_both_devices() {
    let overlay = installed(Some(300));
    assert!(overlay.active && overlay.installed);
    assert_eq!(overlay.present, [100, 200]);
    assert_eq!(overlay.present_original, [101, 201]);
    assert_eq!(overlay.reset, [300, 0]);
    assert_eq!(overlay.reset_original, [301, 0]);
}

#[test]
fn overlay_that_is_there_stays() {
    let mut overlay = installed(None);
    let job = overlay::install(&mut overlay);
    assert_eq!(job.stage, InstallStage::Over(true));
    assert_eq!(overlay.present, [100, 200]);
}

#[test]
fn overlay_needs_some_present() {
    let mut overlay = Overlay::new();
    let mut job = overlay::install(&mut overlay);
    job.tell(&mut overlay, InstallReply::Targets(None, None));
    job.tell(&mut overlay, InstallReply::Targets(Some(0), Some(7)));
    assert_eq!(job.stage, InstallStage::Over(false));
    assert!(!overlay.installed);
    let mut job = overlay::install(&mut overlay);
    job.tell(&mut overlay, InstallReply::Targets(Some(100), Some(7)));
    job.tell(&mut overlay, InstallReply::Targets(Some(100), Some(8)));
    assert_eq!(job.stage, InstallStage::Present { slot: 0, target: 100 });
    job.tell(&mut overlay, InstallReply::Original(None));
    assert_eq!(job.stage, InstallStage::Reset { slot: 0, target: 7 });
    job.tell(&mut overlay, InstallReply::Original(Some(9)));
    job.tell(&mut overlay, InstallReply::Original(None));
    assert_eq!(job.stage, InstallStage::Over(false));
    assert!(!overlay.installed && !overlay.active);
}

#[test]
fn frames_are_counted_and_passed_on() {
    let mut overlay = installed(None);
    let plan = overlay::present(&mut overlay, 1, true);
    assert!(plan.first && plan.draw);
    assert_eq!(plan.original, 201);
    let plan = overlay::present(&mut overlay, 0, false);
    assert!(!plan.first && !plan.draw);
    assert_eq!(overlay.frames, 2);
    let mut off = Overlay::new();
    let plan = overlay::present(&mut off, 0, true);
    assert!(!plan.draw && !plan.first);
    assert_eq!((plan.original, off.frames), (0, 0));
}

#[test]
fn resources_come_in_pairs() {
    let mut overlay = installed(Some(300));
    assert_eq!(
        overlay::ensure_resources(&mut overlay, false),
        Need::Drop(Resources { texture: 0, block: 0 })
    );
    assert!(!overlay::keep_resources(&mut overlay, Some(5), None));
    assert!(!overlay::keep_resources(&mut overlay, Some(5), Some(0)));
    assert!(!overlay::keep_resources(&mut overlay, Some(0), Some(6)));
    assert_eq!(overlay.resources.texture, 0);
    assert!(overlay::keep_resources(&mut overlay, Some(5), Some(6)));
    assert_eq!(overlay::ensure_resources(&mut overlay, true), Need::Ready);
    overlay.resources.block = 0;
    assert_eq!(
        overlay::ensure_resources(&mut overlay, true),
        Need::Make(Resources { texture: 5, block: 0 })
    );
    overlay::keep_resources(&mut overlay, Some(7), Some(8));
    assert_eq!(
        overlay::reset(&mut overlay, 0),
        (Resources { texture: 7, block: 8 }, 301)
    );
    assert_eq!(overlay.resources, Resources { texture: 0, block: 0 });
}

#[test]
fn overlay_leaves_in_order() {
    let mut overlay = installed(Some(300));
    overlay::keep_resources(&mut overlay, Some(5), Some(6));
    let stage = overlay::uninstall(&mut overlay, NOW);
    assert_eq!(stage, LeaveStage::Wait { until: NOW + 600_000_000 });
    assert!(!overlay.active && !overlay.installed);
    assert_eq!(overlay::uninstall_further(&mut overlay, stage, NOW + 1), stage);
    let plan = overlay::present(&mut overlay, 0, true);
    assert_eq!(plan.release, Resources { texture: 5, block: 6 });
    assert!(!plan.draw);
    let mut stage = overlay::uninstall_further(&mut overlay, stage, NOW + 2);
    let mut off = Vec::new();
    while let LeaveStage::Unhook { target, .. } = stage {
        off.push(target);
        stage = overlay::uninstall_further(&mut overlay, stage, NOW + 3);
    }
    assert_eq!(stage, LeaveStage::Over);
    assert_eq!(off, vec![100, 300, 200]);
    assert_eq!((overlay.present, overlay.reset), ([0, 0], [0, 0]));
    assert_eq!(overlay::uninstall(&mut overlay, NOW), LeaveStage::Over);
}

#[test]
fn overlay_gives_back_by_itself_when_no_frame_comes() {
    let mut overlay = installed(None);
    overlay::keep_resources(&mut overlay, Some(5), Some(6));
    let stage = overlay::uninstall(&mut overlay, NOW);
    let stage = overlay::uninstall_further(&mut overlay, stage, NOW + 600_000_000);
    assert_eq!(stage, LeaveStage::Release(Resources { texture: 5, block: 6 }));
    let stage = overlay::uninstall_further(&mut overlay, stage, NOW);
    assert_eq!(stage, LeaveStage::Unhook { number: 0, target: 100 });
    let mut bare = installed(None);
    let stage = overlay::uninstall(&mut bare, NOW);
    assert_eq!(stage, LeaveStage::Unhook { number: 0, target: 100 });
}

#[test]
fn device_is_given_back() {
    assert_eq!(
        overlay::draw(true, true),
        vec![
            DeviceCall::Capture,
            DeviceCall::States,
            DeviceCall::NoTexture,
            DeviceCall::Plain,
            DeviceCall::DrawAreas,
            DeviceCall::FontTexture,
            DeviceCall::Modulate,
            DeviceCall::DrawLetters,
            DeviceCall::NoTexture,
            DeviceCall::Apply,
            DeviceCall::EndScene
        ]
    );
    assert_eq!(overlay::draw(false, false).len(), 5);
    let corners = overlay::quad();
    assert_eq!(corners[0], corners[3]);
    assert_eq!(corners[2], corners[4]);
    assert_eq!(corners[5], Corner::BottomLeft);
}

#[test]
fn panel_lines_are_laid_out() {
    let mut snapshot = Snapshot::new();
    assert_eq!(overlay::panel_texts(&snapshot), vec![PanelText::Title]);
    assert_eq!(overlay::panel_rows(&snapshot), 1);
    overlay::set_lines(
        &mut snapshot,
        vec![
            ("состояние".to_string(), "подключено".to_string()),
            (String::new(), "клавиши".to_string()),
        ],
    );
    assert_eq!(
        overlay::panel_texts(&snapshot),
        vec![PanelText::Title, PanelText::Label(0), PanelText::Value(0), PanelText::Value(1)]
    );
    assert_eq!(overlay::panel_rows(&snapshot), 2);
    assert_eq!(overlay::text_color(PanelText::Title), 0xFFFFD75E);
    assert_eq!(overlay::text_color(PanelText::Label(3)), 0xFF9FA3D8);
    assert_eq!(overlay::text_color(PanelText::Value(3)), 0xFFE4E4F2);
    snapshot.poisoned = true;
    overlay::set_lines(&mut snapshot, Vec::new());
    assert_eq!(snapshot.lines.len(), 2);
    assert_eq!(overlay::panel_texts(&snapshot), vec![PanelText::Title]);
}

#[test]
fn modules_have_names() {
    assert_eq!(overlay::module_of(false, None), "вне модулей (куча)");
    assert_eq!(overlay::module_of(true, None), "неизвестный модуль");
    assert_eq!(overlay::module_of(true, Some("C:\\Windows\\d3d9.dll")), "d3d9.dll");
}

// ---------------------------------------------------------------------------
// Pictures
// ---------------------------------------------------------------------------

fn image(width: u32, height: u32, tint: u32) -> Image {
    Image { width, height, pixels: (0..width * height).map(|i| tint + i).collect() }
}

#[test]
fn pictures_are_cut() {
    let sheet = image(30, 14, 0);
    let part = icons::crop(&sheet, IconRect { x: 16, y: 0, w: 14, h: 14 }).unwrap();
    assert_eq!((part.width, part.height), (14, 14));
    assert_eq!(part.pixels[0], 16);
    assert_eq!(part.pixels[14], 46);
    assert_eq!(part.pixels[195], 13 * 30 + 29);
    assert!(icons::crop(&sheet, IconRect { x: 17, y: 0, w: 14, h: 14 }).is_none());
    assert!(icons::crop(&sheet, IconRect { x: 0, y: 1, w: 14, h: 14 }).is_none());
    assert!(icons::crop(&sheet, IconRect { x: 0, y: 0, w: 0, h: 14 }).is_none());
    assert!(icons::crop(&sheet, IconRect { x: u32::MAX, y: 0, w: 14, h: 1 }).is_none());
    let white = icons::white_block();
    assert_eq!((white.width, white.height), (4, 4));
    assert_eq!(white.pixels, vec![0xFFFF_FFFF; 16]);
}

#[test]
fn only_usable_pictures_are_loaded() {
    let mut loaded = Loaded::new();
    let assets = icons::ui_assets();
    assert_eq!(assets.len(), 13);
    assert_eq!((assets[10].id, assets[10].name), (-9, "UI/Settings_Toggle"));
    assert_eq!(assets[10].cut, Some(IconRect { x: 16, y: 0, w: 14, h: 14 }));
    assert!(loaded.add_asset(&assets[0], Some(image(14, 20, 5))));
    assert!(!loaded.add_asset(&assets[1], None));
    assert!(!loaded.add_asset(&assets[10], Some(image(20, 14, 5))));
    assert!(loaded.add_asset(&assets[10], Some(image(30, 14, 5))));
    loaded.add_item(2297, Some(image(30, 28, 9)));
    loaded.add_item(1, None);
    loaded.add_item(2, Some(image(0, 5, 9)));
    loaded.add_item(3, Some(image(193, 1, 9)));
    loaded.add_item(4, Some(image(192, 1, 9)));
    let ids: Vec<i32> = loaded.images.iter().map(|i| i.0).collect();
    assert_eq!(ids, vec![-1, -2, -9, 2297, 4]);
}

#[test]
fn pictures_read_back_from_the_atlas() {
    let mut loaded = Loaded::new();
    for i in 0..40u32 {
        loaded.add_item(i as i32 + 1, Some(image(20 + i * 4, 10 + (i % 5) * 7, i * 100_000)));
    }
    assert!(icons::fits(&loaded));
    let atlas = icons::build(&loaded).unwrap();
    assert_eq!(atlas.width, 1024);
    assert_eq!(atlas.len(), 41);
    assert_eq!(atlas.pixels.len(), (atlas.width * atlas.height) as usize);
    assert_eq!(atlas.get(-1), Some(IconRect { x: 2, y: 2, w: 4, h: 4 }));
    assert_eq!(atlas.get(1), Some(IconRect { x: 8, y: 2, w: 20, h: 10 }));
    assert_eq!(atlas.get(999), None);
    let mut painted = 0;
    for (id, picture) in &loaded.images {
        let rect = atlas.get(*id).unwrap();
        assert_eq!((rect.w, rect.h), (picture.width, picture.height));
        assert!(rect.x + rect.w + 2 <= 1024 && rect.y + rect.h + 2 <= atlas.height);
        for r in 0..rect.h {
            for c in 0..rect.w {
                let there = atlas.pixels[((rect.y + r) * 1024 + rect.x + c) as usize];
                assert_eq!(there, picture.pixels[(r * rect.w + c) as usize]);
                painted += 1;
            }
        }
    }
    let nonzero = atlas.pixels.iter().filter(|p| **p != 0).count();
    assert_eq!(nonzero, painted - 1);
}

#[test]
fn shelves_break_where_they_are_full() {
    let mut loaded = Loaded { images: Vec::new() };
    assert!(icons::build(&loaded).is_none());
    for id in 0..6 {
        loaded.add_item(id, Some(image(190, 30 + id as u32, 1)));
    }
    let atlas = icons::build(&loaded).unwrap();
    assert_eq!(atlas.get(4), Some(IconRect { x: 770, y: 2, w: 190, h: 34 }));
    assert_eq!(atlas.get(5), Some(IconRect { x: 2, y: 38, w: 190, h: 35 }));
    assert_eq!(atlas.height, 75);
}

#[test]
fn later_picture_of_a_number_is_found() {
    let mut loaded = Loaded::new();
    loaded.add_item(7, Some(image(5, 5, 1)));
    loaded.add_item(7, Some(image(6, 5, 1)));
    let atlas = icons::build(&loaded).unwrap();
    assert_eq!(atlas.get(7), Some(IconRect { x: 15, y: 2, w: 6, h: 5 }));
    assert_eq!(atlas.len(), 2);
}

#[test]
fn pictures_that_cannot_be_laid_out_are_noticed() {
    let asset = Asset { id: -2, name: "wide", cut: None };
    let mut loaded = Loaded::new();
    loaded.add_asset(&asset, Some(image(3070, 1, 0)));
    assert!(icons::fits(&loaded));
    let atlas = icons::build(&loaded).unwrap();
    assert_eq!(atlas.get(-2), Some(IconRect { x: 2, y: 8, w: 3070, h: 1 }));
    let mut loaded = Loaded::new();
    loaded.add_asset(&asset, Some(image(3071, 1, 0)));
    assert!(!icons::fits(&loaded));
    let mut loaded = Loaded::new();
    loaded.images.push((5, Image { width: 2, height: 2, pixels: vec![0; 3] }));
    assert!(!icons::fits(&loaded));
    let mut loaded = Loaded::new();
    let flat = || Image { width: u32::MAX - 10, height: 0, pixels: Vec::new() };
    loaded.images.push((5, flat()));
    assert!(icons::fits(&loaded));
    loaded.images.push((6, flat()));
    assert!(!icons::fits(&loaded));
}

#[test]
fn wide_picture_runs_on_below_where_there_is_room() {
    let asset = Asset { id: -2, name: "wide", cut: None };
    let mut loaded = Loaded::new();
    loaded.add_asset(&asset, Some(image(4000, 1, 7)));
    assert!(!icons::fits(&loaded));
    loaded.add_item(9, Some(image(5, 20, 3)));
    assert!(icons::fits(&loaded));
    let atlas = icons::build(&loaded).unwrap();
    let wide = atlas.get(-2).unwrap();
    assert_eq!((wide.x, wide.y, wide.w, wide.h), (2, 8, 4000, 1));
    let start = (wide.y * atlas.width + wide.x) as usize;
    assert_eq!(atlas.pixels[start - 1], 0);
    assert_eq!(atlas.pixels[start + 4000], 0);
    assert_ne!(atlas.pixels[start + 3999], 0);
}

#[test]
fn rest_of_the_atlas_is_transparent() {
    let mut loaded = Loaded::new();
    loaded.add_item(1, Some(image(30, 20, 1)));
    loaded.add_item(2, Some(image(40, 10, 5)));
    let atlas = icons::build(&loaded).unwrap();
    let places = [atlas.get(icons::WHITE), atlas.get(1), atlas.get(2)];
    for r in 0..atlas.height {
        for c in 0..atlas.width {
            let covered = places.iter().flatten().any(|p| {
                p.y <= r && r < p.y + p.h && p.x <= c && c < p.x + p.w
            });
            if !covered {
                assert_eq!(atlas.pixels[(r * atlas.width + c) as usize], 0);
            }
        }
    }
    for place in places.iter().flatten() {
        assert!(place.x >= 2 && place.y >= 2);
        assert!(place.x + place.w + 2 <= atlas.width && place.y + place.h + 2 <= atlas.height);
    }
}

// ---------------------------------------------------------------------------
// Letters
// ---------------------------------------------------------------------------

fn atlas(metrics: Metrics) -> FontAtlas {
    let grid = metrics.grid();
    let drawing: Vec<u32> = vec![0x0010_2030; (grid.width * grid.height) as usize];
    font::build(grid, &drawing)
}

#[test]
fn charset_is_complete() {
    let mut expected: Vec<char> = (32u32..127).filter_map(char::from_u32).collect();
    expected.extend((0x410u32..=0x44f).filter_map(char::from_u32));
    expected.extend(['Ё', 'ё', '—', '…']);
    assert_eq!(font::charset(), expected);
}

#[test]
fn grid_comes_from_the_metrics() {
    let metrics = Metrics { average_width: 9, max_width: 14, height: 19, external_leading: 1 };
    assert!(metrics.is_measurable());
    let grid = metrics.grid();
    assert_eq!((grid.advance, grid.cell_w, grid.cell_h), (9, 16, 22));
    assert_eq!((grid.width, grid.height), (256, 242));
    let grid = Metrics { average_width: -3, max_width: 0, height: 0, external_leading: -9 }.grid();
    assert_eq!((grid.advance, grid.cell_w, grid.cell_h), (1, 3, 3));
    let grid = Metrics { average_width: 20, max_width: 5, height: 10, external_leading: 0 }.grid();
    assert_eq!((grid.advance, grid.cell_w), (20, 22));
    let huge = Metrics { average_width: i32::MAX, max_width: 1, height: 1, external_leading: 0 };
    assert!(!huge.is_measurable());
    let huge = Metrics { average_width: 1, max_width: 1, height: i32::MAX, external_leading: 1 };
    assert!(!huge.is_measurable());
}

#[test]
fn letters_are_found_where_they_were_drawn() {
    let metrics = Metrics { average_width: 9, max_width: 14, height: 19, external_leading: 1 };
    let atlas = atlas(metrics);
    let grid = metrics.grid();
    for (i, ch) in font::charset().into_iter().enumerate() {
        assert_eq!(atlas.cell(ch), Some(grid.spot(i as u32)));
    }
    assert_eq!(atlas.cell(' '), Some((0, 0)));
    assert_eq!(atlas.cell('A'), Some((16, 44)));
    assert_eq!(atlas.cell('…'), Some((2 * 16, 10 * 22)));
    assert_eq!(atlas.cell('é'), None);
    assert_eq!(overlay::lay(&atlas, "Aé "), vec![Some((16, 44)), None, Some((0, 0))]);
    assert_eq!(atlas.pixels[0], 0x30FF_FFFF);
}

#[test]
fn brightness_becomes_coverage() {
    assert_eq!(font::coverage(0), 0x00FF_FFFF);
    assert_eq!(font::coverage(0x00FF_FFFF), 0xFFFF_FFFF);
    assert_eq!(font::coverage(0x0012_3456), 0x56FF_FFFF);
    assert_eq!(font::coverage(0x0056_3412), 0x56FF_FFFF);
    assert_eq!(font::coverage(0xFF12_5634), 0x56FF_FFFF);
}
