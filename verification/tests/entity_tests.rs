use hax::entities::{EntityRecord, EntityView, MemoryImage, MemoryLayoutError};

fn rec(extent: u16, x: f32, y: f32, next: u64) -> EntityRecord {
    EntityRecord { extent, x_bits: x.to_bits(), y_bits: y.to_bits(), next }
}

/// A three-entity chain: extents 5, 5, 0, with a null final link.
fn reference_chain() -> MemoryImage {
    let mut img = MemoryImage::new(0x1000);
    assert!(img.record_entity(0x1000, rec(5, 1.0, 2.0, 0x2000)));
    assert!(img.record_entity(0x2000, rec(5, 3.0, 4.0, 0x3000)));
    assert!(img.record_entity(0x3000, rec(0, 5.0, 6.0, 0)));
    img
}

#[test]
fn record_entity_refuses_null_and_duplicates() {
    let mut img = MemoryImage::new(0x1000);
    assert!(!img.record_entity(0, rec(1, 0.0, 0.0, 0)));
    assert!(img.record_entity(0x1000, rec(1, 0.0, 0.0, 0)));
    assert!(!img.record_entity(0x1000, rec(2, 0.0, 0.0, 0)));
    assert_eq!(img.lookup(0x1000), Some(rec(1, 0.0, 0.0, 0)));
}

#[test]
fn head_reads_the_root_pointer() {
    assert_eq!(MemoryImage::new(0).head(), None);
    assert_eq!(MemoryImage::new(0x1000).head(), Some(0x1000));
}

#[test]
fn traverse_yields_all_entities_in_link_order() {
    let img = reference_chain();
    let views = img.traverse(16).expect("chain terminates");
    let addrs: Vec<u64> = views.iter().map(|v| v.addr).collect();
    assert_eq!(addrs, vec![0x1000, 0x2000, 0x3000]);
    assert_eq!(
        views[1],
        EntityView {
            addr: 0x2000,
            extent: 5,
            x_bits: 3.0f32.to_bits(),
            y_bits: 4.0f32.to_bits(),
            next: 0x3000,
        }
    );
}

#[test]
fn traverse_restarts_from_the_root_each_time() {
    let img = reference_chain();
    let first = img.traverse(16).expect("chain terminates");
    let second = img.traverse(16).expect("chain terminates");
    assert_eq!(first, second);
    assert_eq!(first.len(), 3);
}

#[test]
fn traverse_of_null_root_is_empty() {
    let img = MemoryImage::new(0);
    assert_eq!(img.traverse(16).expect("empty chain"), Vec::new());
}

#[test]
fn traverse_reports_wild_pointers() {
    let mut img = MemoryImage::new(0x1000);
    assert!(img.record_entity(0x1000, rec(5, 0.0, 0.0, 0xdead)));
    assert_eq!(img.traverse(16), Err(MemoryLayoutError::WildPointer { addr: 0xdead }));
}

#[test]
fn traverse_bounds_corrupted_chains() {
    // a two-entity cycle never reaches a null link
    let mut img = MemoryImage::new(0x1000);
    assert!(img.record_entity(0x1000, rec(5, 0.0, 0.0, 0x2000)));
    assert!(img.record_entity(0x2000, rec(5, 0.0, 0.0, 0x1000)));
    assert_eq!(img.traverse(64), Err(MemoryLayoutError::TraversalOverrun));
    // a bound shorter than an honest chain is an overrun too
    assert_eq!(reference_chain().traverse(2), Err(MemoryLayoutError::TraversalOverrun));
}

#[test]
fn find_local_player_picks_the_last_candidate() {
    // chain [extent=5, extent=5, extent=0, next=null]: the second entity is
    // the last one with a non-zero extent and a following node
    let img = reference_chain();
    assert_eq!(img.find_local_player(16), Ok(Some(0x2000)));
}

#[test]
fn find_local_player_with_no_candidate() {
    let mut img = MemoryImage::new(0x1000);
    assert!(img.record_entity(0x1000, rec(0, 0.0, 0.0, 0)));
    assert_eq!(img.find_local_player(16), Ok(None));
    assert_eq!(MemoryImage::new(0).find_local_player(16), Ok(None));
}

#[test]
fn find_local_player_propagates_layout_errors() {
    let mut img = MemoryImage::new(0x1000);
    assert!(img.record_entity(0x1000, rec(5, 0.0, 0.0, 0xbad0)));
    assert_eq!(img.find_local_player(16), Err(MemoryLayoutError::WildPointer { addr: 0xbad0 }));
}

#[test]
fn write_position_updates_one_entity_in_place() {
    let mut img = reference_chain();
    let nx = 7.5f32.to_bits();
    let ny = 8.5f32.to_bits();
    assert_eq!(img.write_position(0x2000, nx, ny), Ok(()));
    // position changed, extent and link untouched
    let r = img.lookup(0x2000).unwrap();
    assert_eq!((r.x_bits, r.y_bits, r.extent, r.next), (nx, ny, 5, 0x3000));
    // the other records are untouched
    assert_eq!(img.lookup(0x1000), Some(rec(5, 1.0, 2.0, 0x2000)));
    assert_eq!(img.lookup(0x3000), Some(rec(0, 5.0, 6.0, 0)));
    // traversal is undisturbed: only links drive it
    let addrs: Vec<u64> = img.traverse(16).unwrap().iter().map(|v| v.addr).collect();
    assert_eq!(addrs, vec![0x1000, 0x2000, 0x3000]);
}

#[test]
fn write_position_fails_on_unknown_addresses() {
    let mut img = reference_chain();
    assert_eq!(
        img.write_position(0x9999, 0, 0),
        Err(MemoryLayoutError::WildPointer { addr: 0x9999 })
    );
}
