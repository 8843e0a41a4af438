use birblike::tiles::{BorderTile, SpriteCell, Tile};

fn t_point_up() -> BorderTile {
    BorderTile::new(true, false, true, true)
}

fn t_point_down() -> BorderTile {
    BorderTile::new(false, true, true, true)
}

fn t_point_left() -> BorderTile {
    BorderTile::new(true, true, true, false)
}

fn t_point_right() -> BorderTile {
    BorderTile::new(true, true, false, true)
}

fn bend_top_left() -> BorderTile {
    BorderTile::new(false, true, false, true)
}

fn bend_bottom_left() -> BorderTile {
    BorderTile::new(true, false, false, true)
}

fn bend_top_right() -> BorderTile {
    BorderTile::new(false, true, true, false)
}

fn bend_bottom_right() -> BorderTile {
    BorderTile::new(true, false, true, false)
}

fn horizontal() -> BorderTile {
    BorderTile::new(false, false, true, true)
}

fn vertical() -> BorderTile {
    BorderTile::new(true, true, false, false)
}

#[test]
fn combined_borders() {
    assert_eq!(bend_top_left().bitor(horizontal()), t_point_down());
    assert_eq!(bend_top_right().bitor(horizontal()), t_point_down());
    assert_eq!(bend_bottom_left().bitor(horizontal()), t_point_up());
    assert_eq!(bend_bottom_right().bitor(horizontal()), t_point_up());
    assert_eq!(bend_top_left().bitor(vertical()), t_point_right());
    assert_eq!(bend_top_right().bitor(vertical()), t_point_left());
    assert_eq!(bend_bottom_left().bitor(vertical()), t_point_right());
    assert_eq!(bend_bottom_right().bitor(vertical()), t_point_left());
}

#[test]
fn bitor_assign_merges_in_place() {
    let mut b = bend_top_left();
    b.bitor_assign(horizontal());
    assert_eq!(b, t_point_down());
}

#[test]
fn border_sprites() {
    assert_eq!(t_point_up().sprite(), SpriteCell { x: 10, y: 12 });
    assert_eq!(t_point_down().sprite(), SpriteCell { x: 11, y: 12 });
    assert_eq!(t_point_left().sprite(), SpriteCell { x: 9, y: 11 });
    assert_eq!(t_point_right().sprite(), SpriteCell { x: 12, y: 12 });
    assert_eq!(horizontal().sprite(), SpriteCell { x: 10, y: 11 });
    assert_eq!(vertical().sprite(), SpriteCell { x: 13, y: 12 });
    assert_eq!(
        BorderTile::new(true, true, true, true).sprite(),
        SpriteCell { x: 14, y: 12 }
    );
    assert_eq!(BorderTile::empty().sprite(), SpriteCell { x: 0, y: 0 });
}

#[test]
fn tile_sprite_dispatch() {
    assert_eq!(Tile::Air.sprite(), SpriteCell { x: 0, y: 0 });
    assert_eq!(
        Tile::Border(vertical()).sprite(),
        SpriteCell { x: 13, y: 12 }
    );
}

#[test]
fn as_border_splits_tiles() {
    assert_eq!(Tile::Air.as_border(), None);
    assert_eq!(Tile::Border(horizontal()).as_border(), Some(horizontal()));
}
