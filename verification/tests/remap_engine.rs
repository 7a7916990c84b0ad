use tmx_edit::format::SerializationFormat;
use tmx_edit::gid::{to_gid, to_logical};
use tmx_edit::model::{Data, Image, Layer, LayerType, TileMap, TileSet};
use tmx_edit::remap::{
    apply, remap_cell, remap_grid, remap_layer, replace, replace_cell, resize, resize_cell,
    Commands, RemapError,
};

fn tileset(columns: u32, tilecount: u32) -> TileSet {
    TileSet {
        firstgid: 1,
        name: "terrain".to_string(),
        tilewidth: 16,
        tileheight: 16,
        tilecount,
        columns,
        image: Image { source: "terrain.png".to_string(), width: 128, height: 64 },
    }
}

fn tile_layer(name: &str, grid: Vec<Vec<u32>>) -> Layer {
    Layer {
        id: Some(1),
        name: name.to_string(),
        width: Some(3),
        height: Some(1),
        offsetx: None,
        offsety: None,
        data: Some(Data { encoding: "csv".to_string(), data: grid }),
    }
}

fn bare_layer(name: &str) -> Layer {
    Layer {
        id: None,
        name: name.to_string(),
        width: None,
        height: None,
        offsetx: Some(4),
        offsety: None,
        data: None,
    }
}

fn map_with(tilesets: Vec<TileSet>, layers: Vec<LayerType>) -> TileMap {
    TileMap {
        version: "1.10".to_string(),
        tiledversion: Some("1.10.2".to_string()),
        orientation: "orthogonal".to_string(),
        renderorder: "right-down".to_string(),
        width: 3,
        height: 1,
        tilewidth: 16,
        tileheight: 16,
        infinite: Some(0),
        backgroundcolor: None,
        nextlayerid: Some(2),
        nextobjectid: Some(1),
        editorsettings: None,
        tilesets,
        layers,
    }
}

fn grid_of(map: &TileMap, layer: usize) -> Vec<Vec<u32>> {
    map.layers[layer].layer().data.as_ref().unwrap().data.clone()
}

#[test]
fn gid_convention() {
    assert_eq!(to_logical(0), None);
    assert_eq!(to_logical(1), Some(0));
    assert_eq!(to_logical(5), Some(4));
    assert_eq!(to_logical(u32::MAX), Some(u32::MAX - 1));
    assert_eq!(to_gid(0), Some(1));
    assert_eq!(to_gid(9), Some(10));
    assert_eq!(to_gid(u32::MAX - 1), Some(u32::MAX));
    assert_eq!(to_gid(u32::MAX), None);
}

#[test]
fn gid_round_trip() {
    for logical in [0u32, 1, 7, 1000, u32::MAX - 1] {
        assert_eq!(to_logical(to_gid(logical).unwrap()), Some(logical));
    }
}

#[test]
fn replace_cell_matches_logical_index() {
    assert_eq!(replace_cell(5, 4, 9), Some(10));
    assert_eq!(replace_cell(0, 4, 9), Some(0));
    assert_eq!(replace_cell(6, 4, 9), Some(6));
    assert_eq!(replace_cell(4, 4, 9), Some(4));
}

#[test]
fn replace_cell_never_touches_empty() {
    assert_eq!(replace_cell(0, 0, 9), Some(0));
    assert_eq!(replace_cell(0, u32::MAX, 9), Some(0));
}

#[test]
fn replace_cell_leaves_no_replaced_tile() {
    for cell in 0u32..20 {
        let replaced = replace_cell(cell, 4, 9).unwrap();
        assert_ne!(to_logical(replaced), Some(4));
        assert_eq!(replaced == 0, cell == 0);
    }
}

#[test]
fn replace_cell_without_stored_value() {
    assert_eq!(replace_cell(5, 4, u32::MAX), None);
    assert_eq!(replace_cell(6, 4, u32::MAX), Some(6));
    assert_eq!(replace_cell(5, 4, u32::MAX - 1), Some(u32::MAX));
}

#[test]
fn resize_cell_eight_to_four() {
    assert_eq!(resize_cell(9, 8, 4), Some(5));
}

#[test]
fn resize_cell_keeps_values_below_old_width() {
    assert_eq!(resize_cell(0, 8, 4), Some(0));
    assert_eq!(resize_cell(7, 8, 4), Some(7));
}

#[test]
fn resize_cell_at_the_boundary() {
    assert_eq!(resize_cell(8, 8, 4), Some(8));
    assert_eq!(resize_cell(8, 8, 16), Some(8));
}

#[test]
fn resize_cell_growing() {
    assert_eq!(resize_cell(9, 8, 16), Some(17));
    assert_eq!(resize_cell(17, 8, 16), Some(33));
    assert_eq!(resize_cell(24, 8, 10), Some(28));
}

#[test]
fn resize_cell_shrinking() {
    assert_eq!(resize_cell(17, 8, 4), Some(9));
    assert_eq!(resize_cell(20, 8, 4), Some(12));
    assert_eq!(resize_cell(25, 8, 1), Some(4));
}

#[test]
fn resize_cell_keeps_row_and_column() {
    for cell in 1u32..200 {
        let moved = resize_cell(cell, 8, 11).unwrap();
        assert_eq!((moved - 1) / 11, (cell - 1) / 8);
        assert_eq!((moved - 1) % 11, (cell - 1) % 8);
    }
}

#[test]
fn resize_cell_same_width() {
    assert_eq!(resize_cell(100, 8, 8), Some(100));
}

#[test]
fn resize_cell_without_stored_value() {
    assert_eq!(resize_cell(5, 0, 4), None);
    assert_eq!(resize_cell(0, 0, 4), None);
    assert_eq!(resize_cell(u32::MAX, 1, 2), None);
    assert_eq!(resize_cell(u32::MAX, 1, 1), Some(u32::MAX));
    assert_eq!(resize_cell(u32::MAX, 2, 1), Some(2147483648));
}

#[test]
fn remap_cell_by_command() {
    assert_eq!(remap_cell(Commands::Replace { find: 4, replace: 9 }, 8, 5), Some(10));
    assert_eq!(remap_cell(Commands::Resize { tilecount: 32, columns: 4 }, 8, 9), Some(5));
    assert_eq!(remap_cell(Commands::Convert, 8, 9), Some(9));
}

#[test]
fn remap_grid_all_or_nothing() {
    let grid = vec![vec![0, 5, 6], vec![5]];
    assert_eq!(
        remap_grid(&grid, Commands::Replace { find: 4, replace: 9 }, 8),
        Some(vec![vec![0, 10, 6], vec![10]])
    );
    assert_eq!(remap_grid(&grid, Commands::Replace { find: 4, replace: u32::MAX }, 8), None);
    assert_eq!(
        remap_grid(&Vec::new(), Commands::Resize { tilecount: 1, columns: 1 }, 0),
        Some(Vec::new())
    );
}

#[test]
fn remap_layer_keeps_kind_and_attributes() {
    let layer = LayerType::Group(tile_layer("g", vec![vec![9]]));
    let moved = remap_layer(&layer, Commands::Resize { tilecount: 32, columns: 4 }, 8).unwrap();
    assert_eq!(moved, LayerType::Group(tile_layer("g", vec![vec![5]])));
    let bare = LayerType::ImageLayer(bare_layer("i"));
    assert_eq!(
        remap_layer(&bare, Commands::Resize { tilecount: 32, columns: 4 }, 0),
        Some(bare.clone())
    );
}

#[test]
fn replace_in_document() {
    let mut map = map_with(
        vec![tileset(8, 32)],
        vec![LayerType::Layer(tile_layer("ground", vec![vec![0, 5, 6]]))],
    );
    assert_eq!(replace(&mut map, 4, 9), Ok(()));
    assert_eq!(grid_of(&map, 0), vec![vec![0, 10, 6]]);
    assert_eq!(map.tilesets, vec![tileset(8, 32)]);
}

#[test]
fn replace_in_every_layer_with_a_grid() {
    let mut map = map_with(
        vec![tileset(8, 32)],
        vec![
            LayerType::Layer(tile_layer("a", vec![vec![5, 5], vec![1, 5]])),
            LayerType::ImageLayer(bare_layer("b")),
            LayerType::ObjectGroup(tile_layer("c", vec![vec![5]])),
        ],
    );
    assert_eq!(replace(&mut map, 4, 0), Ok(()));
    assert_eq!(grid_of(&map, 0), vec![vec![1, 1], vec![1, 1]]);
    assert_eq!(map.layers[1], LayerType::ImageLayer(bare_layer("b")));
    assert_eq!(grid_of(&map, 2), vec![vec![1]]);
}

#[test]
fn replace_without_tileset() {
    let mut map = map_with(Vec::new(), vec![LayerType::Layer(tile_layer("a", vec![vec![5]]))]);
    let before = map.clone();
    assert_eq!(replace(&mut map, 4, 9), Err(RemapError::MissingTileset));
    assert_eq!(map, before);
}

#[test]
fn replace_without_stored_value() {
    let mut map = map_with(
        vec![tileset(8, 32)],
        vec![
            LayerType::Layer(tile_layer("a", vec![vec![1, 2]])),
            LayerType::Layer(tile_layer("b", vec![vec![5]])),
        ],
    );
    let before = map.clone();
    assert_eq!(replace(&mut map, 4, u32::MAX), Err(RemapError::Unmappable));
    assert_eq!(map, before);
    assert_eq!(replace(&mut map, 100, u32::MAX), Ok(()));
    assert_eq!(map, before);
}

#[test]
fn resize_in_document() {
    let mut map = map_with(
        vec![tileset(8, 32), tileset(5, 10)],
        vec![LayerType::Layer(tile_layer("ground", vec![vec![0, 9, 8], vec![17, 1, 24]]))],
    );
    assert_eq!(resize(&mut map, 16, 4), Ok(()));
    assert_eq!(grid_of(&map, 0), vec![vec![0, 5, 8], vec![9, 1, 16]]);
    assert_eq!(map.tilesets, vec![tileset(4, 16), tileset(5, 10)]);
    assert_eq!(map.version, "1.10");
    assert_eq!(map.layers[0].layer().name, "ground");
}

#[test]
fn resize_without_tileset() {
    let mut map = map_with(Vec::new(), Vec::new());
    let before = map.clone();
    assert_eq!(resize(&mut map, 16, 4), Err(RemapError::MissingTileset));
    assert_eq!(map, before);
}

#[test]
fn resize_without_stored_value() {
    let mut map = map_with(
        vec![tileset(0, 32)],
        vec![LayerType::Layer(tile_layer("ground", vec![vec![3]]))],
    );
    let before = map.clone();
    assert_eq!(resize(&mut map, 16, 4), Err(RemapError::Unmappable));
    assert_eq!(map, before);
    let mut large = map_with(
        vec![tileset(1, 32)],
        vec![LayerType::Layer(tile_layer("ground", vec![vec![1, u32::MAX]]))],
    );
    let before = large.clone();
    assert_eq!(resize(&mut large, 16, 2), Err(RemapError::Unmappable));
    assert_eq!(large, before);
}

#[test]
fn resize_of_a_document_without_cells() {
    let mut map = map_with(vec![tileset(0, 0)], vec![LayerType::Group(bare_layer("g"))]);
    assert_eq!(resize(&mut map, 16, 4), Ok(()));
    assert_eq!(map.tilesets, vec![tileset(4, 16)]);
}

#[test]
fn apply_selects_the_shape() {
    let mut map = map_with(
        vec![tileset(8, 32)],
        vec![LayerType::Layer(tile_layer("ground", vec![vec![0, 5, 9]]))],
    );
    assert_eq!(
        apply(&mut map, Commands::Replace { find: 4, replace: 9 }),
        Ok(SerializationFormat::XmlFormat)
    );
    assert_eq!(grid_of(&map, 0), vec![vec![0, 10, 9]]);
    assert_eq!(
        apply(&mut map, Commands::Resize { tilecount: 16, columns: 4 }),
        Ok(SerializationFormat::XmlFormat)
    );
    assert_eq!(grid_of(&map, 0), vec![vec![0, 6, 5]]);
    assert_eq!(map.tilesets[0].columns, 4);
    assert_eq!(map.tilesets[0].tilecount, 16);
}

#[test]
fn convert_changes_nothing() {
    let mut map = map_with(
        vec![tileset(8, 32)],
        vec![
            LayerType::Layer(tile_layer("ground", vec![vec![0, 5, 9], vec![1, 2, 3]])),
            LayerType::ObjectGroup(bare_layer("things")),
        ],
    );
    let before = map.clone();
    assert_eq!(apply(&mut map, Commands::Convert), Ok(SerializationFormat::JsonFormat));
    assert_eq!(map, before);
}

#[test]
fn convert_needs_no_tileset() {
    let mut map = map_with(Vec::new(), Vec::new());
    let before = map.clone();
    assert_eq!(apply(&mut map, Commands::Convert), Ok(SerializationFormat::JsonFormat));
    assert_eq!(map, before);
}

#[test]
fn apply_reports_errors() {
    let mut map = map_with(Vec::new(), Vec::new());
    assert_eq!(
        apply(&mut map, Commands::Replace { find: 1, replace: 2 }),
        Err(RemapError::MissingTileset)
    );
    assert_eq!(
        apply(&mut map, Commands::Resize { tilecount: 1, columns: 2 }),
        Err(RemapError::MissingTileset)
    );
}

#[test]
fn layer_offsets_default_to_zero() {
    let layer = bare_layer("b");
    assert_eq!(layer.offset_x(), 4);
    assert_eq!(layer.offset_y(), 0);
}
