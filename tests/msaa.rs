use iced_wgpu::msaa::{pipeline_sample_count, Antialiasing, Blit, Targets, COMPOSITE_VERTICES};
use std::cell::Cell;

#[test]
fn sample_counts() {
    assert_eq!(Antialiasing::MSAAx2.sample_count(), 2);
    assert_eq!(Antialiasing::MSAAx4.sample_count(), 4);
    assert_eq!(Antialiasing::MSAAx8.sample_count(), 8);
    assert_eq!(Antialiasing::MSAAx16.sample_count(), 16);
    assert_eq!(pipeline_sample_count(None), 1);
    assert_eq!(pipeline_sample_count(Some(Antialiasing::MSAAx8)), 8);
}

#[test]
fn targets_new_keeps_size() {
    let t = Targets::new(|samples, w, h| (samples, w, h), 4, 800, 600);
    assert_eq!(t.resources, (4, 800, 600));
    assert_eq!(t.width, 800);
    assert_eq!(t.height, 600);
}

#[test]
fn same_size_reuses_targets() {
    let created = Cell::new(0u32);
    let create = |samples: u32, w: u32, h: u32| {
        created.set(created.get() + 1);
        (created.get(), samples, w, h)
    };
    let mut blit: Blit<(u32, u32, u32, u32)> = Blit::new(Antialiasing::MSAAx4);
    assert_eq!(blit.sample_count(), 4);
    let first = *blit.targets(create, 800, 600);
    assert_eq!(first, (1, 4, 800, 600));
    let second = *blit.targets(create, 800, 600);
    assert_eq!(second, first);
    assert_eq!(created.get(), 1);
}

#[test]
fn new_size_replaces_targets() {
    let created = Cell::new(0u32);
    let create = |_samples: u32, w: u32, h: u32| {
        created.set(created.get() + 1);
        (created.get(), w, h)
    };
    let mut blit: Blit<(u32, u32, u32)> = Blit::new(Antialiasing::MSAAx2);
    let first = *blit.targets(create, 800, 600);
    let second = *blit.targets(create, 801, 600);
    assert_ne!(first, second);
    assert_eq!(second, (2, 801, 600));
    let third = *blit.targets(create, 801, 601);
    assert_eq!(third, (3, 801, 601));
    let again = *blit.targets(create, 801, 601);
    assert_eq!(again, third);
    assert_eq!(created.get(), 3);
}

#[test]
fn draw_composites_current_targets() {
    let mut blit: Blit<u32> = Blit::new(Antialiasing::MSAAx16);
    let recorded = Cell::new(None);
    assert!(!blit.draw(|r: &u32, n| recorded.set(Some((*r, n)))));
    assert_eq!(recorded.get(), None);
    blit.targets(|_, w, _| w, 640, 480);
    assert!(blit.draw(|r: &u32, n| recorded.set(Some((*r, n)))));
    assert_eq!(recorded.get(), Some((640, 6)));
    assert_eq!(COMPOSITE_VERTICES, 6);
}
