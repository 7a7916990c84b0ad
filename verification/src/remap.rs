//! The operations on a map document: replacing one tile by another, moving
//! the tiles to a tileset of another width, and choosing the JSON shape.

use vstd::prelude::*;
use crate::format::SerializationFormat;
use crate::gid::{gid_of, logical_of, to_gid, EMPTY};
use crate::model::{
    Data, DataView, Layer, LayerType, LayerTypeView, LayerView, TileMap, TileMapView, TileSetView,
};

verus! {

/// The operation to perform on a document.
#[derive(Debug, Clone, Copy, PartialEq, Eq, Structural)]
pub enum Commands {
    /// Every tile with logical index `find` becomes the tile with logical
    /// index `replace`.
    Replace { find: u32, replace: u32 },
    /// The tileset gets `columns` tiles to a row and `tilecount` tiles, and
    /// every tile keeps its place in the image.
    Resize { tilecount: u32, columns: u32 },
    /// The document is left as it is and written out in the JSON shape.
    Convert,
}

/// Why an operation could not be performed.
#[derive(Debug, Clone, Copy, PartialEq, Eq, Structural)]
pub enum RemapError {
    /// The document has no tileset to consult.
    MissingTileset,
    /// Some cell has no stored value after the operation: the value does not
    /// fit in 32 bits, or the tileset has no columns to divide by.
    Unmappable,
}

/// The stored value of a cell after a replacement.
pub open spec fn replaced_cell(cell: u32, find: u32, replace: u32) -> Option<u32> {
    if logical_of(cell) == Some(find) {
        gid_of(replace)
    } else {
        Some(cell)
    }
}

/// Where a stored value, at least as large as the old width, goes when the
/// tileset changes its width: the value plus, for each full row of the old
/// width below its logical index, the difference of the widths.
pub open spec fn moved_cell(cell: u32, old_columns: u32, columns: u32) -> int {
    cell + ((cell - 1) / (old_columns as int)) * (columns - old_columns)
}

/// The stored value of a cell after a change of the tileset's width. Values
/// below the old width stay.
pub open spec fn resized_cell(cell: u32, old_columns: u32, columns: u32) -> Option<u32> {
    if cell >= old_columns {
        if old_columns > 0 && moved_cell(cell, old_columns, columns) <= u32::MAX {
            Some(moved_cell(cell, old_columns, columns) as u32)
        } else {
            None
        }
    } else {
        Some(cell)
    }
}

/// The stored value of a cell after an operation on a document whose tileset
/// has `old_columns` columns.
pub open spec fn cell_image(command: Commands, old_columns: u32, cell: u32) -> Option<u32> {
    match command {
        Commands::Replace { find, replace } => replaced_cell(cell, find, replace),
        Commands::Resize { tilecount, columns } => resized_cell(cell, old_columns, columns),
        Commands::Convert => Some(cell),
    }
}

/// Whether every cell of a grid has a stored value after an operation.
pub open spec fn grid_mappable(command: Commands, old_columns: u32, grid: Seq<Seq<u32>>) -> bool {
    forall|r: int, c: int|
        0 <= r < grid.len() && 0 <= c < grid[r].len() ==> cell_image(
            command,
            old_columns,
            #[trigger] grid[r][c],
        ) is Some
}

/// A grid after an operation, cell by cell.
pub open spec fn grid_image(command: Commands, old_columns: u32, grid: Seq<Seq<u32>>) -> Seq<
    Seq<u32>,
> {
    grid.map_values(
        |row: Seq<u32>| row.map_values(|cell: u32| cell_image(command, old_columns, cell)->0),
    )
}

/// Whether every cell of a layer, if it has any, has a stored value after an
/// operation.
pub open spec fn layer_mappable(command: Commands, old_columns: u32, layer: LayerTypeView) -> bool {
    layer.layer.data matches Some(data) ==> grid_mappable(command, old_columns, data.data)
}

/// A layer after an operation: only the cells of its grid change.
pub open spec fn layer_image(
    command: Commands,
    old_columns: u32,
    layer: LayerTypeView,
) -> LayerTypeView {
    LayerTypeView {
        kind: layer.kind,
        layer: LayerView {
            data: match layer.layer.data {
                Some(data) => Some(
                    DataView {
                        encoding: data.encoding,
                        data: grid_image(command, old_columns, data.data),
                    },
                ),
                None => None,
            },
            ..layer.layer
        },
    }
}

/// The consulted tileset after an operation: a resize sets its width and
/// its number of tiles.
pub open spec fn tileset_image(command: Commands, tileset: TileSetView) -> TileSetView {
    match command {
        Commands::Resize { tilecount, columns } => TileSetView { tilecount, columns, ..tileset },
        _ => tileset,
    }
}

/// Whether every layer of a document can be remapped.
pub open spec fn map_mappable(command: Commands, map: TileMapView) -> bool {
    forall|i: int|
        0 <= i < map.layers.len() ==> layer_mappable(
            command,
            map.tilesets[0].columns,
            #[trigger] map.layers[i],
        )
}

/// The document after an operation, or the reason why there is none. Only
/// the first tileset is consulted and changed.
pub open spec fn applied(map: TileMapView, command: Commands) -> Result<TileMapView, RemapError> {
    if command is Convert {
        Ok(map)
    } else if map.tilesets.len() == 0 {
        Err(RemapError::MissingTileset)
    } else if !map_mappable(command, map) {
        Err(RemapError::Unmappable)
    } else {
        Ok(
            TileMapView {
                tilesets: map.tilesets.update(0, tileset_image(command, map.tilesets[0])),
                layers: map.layers.map_values(
                    |layer: LayerTypeView| layer_image(command, map.tilesets[0].columns, layer),
                ),
                ..map
            },
        )
    }
}

/// The shape that the document is written in after an operation.
pub open spec fn format_of(command: Commands) -> SerializationFormat {
    if command is Convert {
        SerializationFormat::JsonFormat
    } else {
        SerializationFormat::XmlFormat
    }
}

/// Replaces the tile of one cell: a cell whose logical index is `find` gets
/// the stored value of `replace`; any other cell, the empty one too, stays.
pub fn replace_cell(cell: u32, find: u32, replace: u32) -> (r: Option<u32>)
    ensures
        r == replaced_cell(cell, find, replace),
{
    if cell != EMPTY && cell - 1 == find {
        to_gid(replace)
    } else {
        Some(cell)
    }
}

/// Moves the tile of one cell to a tileset of another width.
pub fn resize_cell(cell: u32, old_columns: u32, columns: u32) -> (r: Option<u32>)
    ensures
        r == resized_cell(cell, old_columns, columns),
{
    if cell >= old_columns {
        if old_columns == 0 {
            return None;
        }
        let rows: u32 = (cell - 1) / old_columns;
        if columns >= old_columns {
            let step: u32 = columns - old_columns;
            assert(rows * step <= 0xffff_ffff * 0xffff_ffff) by (nonlinear_arith)
                requires
                    0 <= rows <= 0xffff_ffff,
                    0 <= step <= 0xffff_ffff,
            ;
            let moved: u64 = cell as u64 + rows as u64 * step as u64;
            if moved > u32::MAX as u64 {
                None
            } else {
                Some(moved as u32)
            }
        } else {
            let step: u32 = old_columns - columns;
            assert(rows * step <= cell - 1 && rows * (columns - old_columns) == -(rows * step))
                by (nonlinear_arith)
                requires
                    rows == (cell - 1) / (old_columns as int),
                    0 < step <= old_columns,
                    step == old_columns - columns,
                    cell >= 1,
            ;
            Some(cell - rows * step)
        }
    } else {
        Some(cell)
    }
}

/// Performs an operation on one cell.
pub fn remap_cell(command: Commands, old_columns: u32, cell: u32) -> (r: Option<u32>)
    ensures
        r == cell_image(command, old_columns, cell),
{
    match command {
        Commands::Replace { find, replace } => replace_cell(cell, find, replace),
        Commands::Resize { tilecount, columns } => resize_cell(cell, old_columns, columns),
        Commands::Convert => Some(cell),
    }
}

/// Performs an operation on every cell of a grid. There is a result only if
/// every cell has one.
pub fn remap_grid(grid: &Vec<Vec<u32>>, command: Commands, old_columns: u32) -> (r: Option<
    Vec<Vec<u32>>,
>)
    ensures
        r is Some <==> grid_mappable(command, old_columns, grid.deep_view()),
        r matches Some(image) ==> image.deep_view() == grid_image(
            command,
            old_columns,
            grid.deep_view(),
        ),
{
    let mut image: Vec<Vec<u32>> = Vec::new();
    let ghost cells = grid.deep_view();
    for r in 0..grid.len()
        invariant
            cells == grid.deep_view(),
            image.len() == r,
            forall|i: int, j: int|
                0 <= i < r && 0 <= j < cells[i].len() ==> cell_image(
                    command,
                    old_columns,
                    #[trigger] cells[i][j],
                ) is Some,
            forall|i: int|
                0 <= i < r ==> (#[trigger] image[i])@ == cells[i].map_values(
                    |cell: u32| cell_image(command, old_columns, cell)->0,
                ),
    {
        let row = &grid[r];
        let mut moved: Vec<u32> = Vec::new();
        for c in 0..row.len()
            invariant
                cells == grid.deep_view(),
                0 <= r < cells.len(),
                cells[r as int] == row@,
                moved.len() == c,
                forall|j: int|
                    0 <= j < c ==> cell_image(command, old_columns, #[trigger] row@[j]) is Some,
                forall|j: int|
                    0 <= j < c ==> #[trigger] moved[j] == cell_image(
                        command,
                        old_columns,
                        row@[j],
                    )->0,
        {
            moved.push(remap_cell(command, old_columns, row[c])?);
        }
        image.push(moved);
    }
    proof {
        let expected = grid_image(command, old_columns, cells);
        assert forall|i: int| 0 <= i < expected.len() implies image.deep_view()[i]
            == expected[i] by {}
    }
    Some(image)
}

/// A copy of a layer with an operation performed on the cells of its grid.
/// A layer without a grid is copied as it is.
pub fn remap_layer(layer: &LayerType, command: Commands, old_columns: u32) -> (r: Option<
    LayerType,
>)
    ensures
        r is Some <==> layer_mappable(command, old_columns, layer@),
        r matches Some(image) ==> image@ == layer_image(command, old_columns, layer@),
{
    let content = layer.layer();
    let data = match &content.data {
        None => None,
        Some(data) => Some(
            Data {
                encoding: data.encoding.clone(),
                data: remap_grid(&data.data, command, old_columns)?,
            },
        ),
    };
    let image = Layer {
        id: content.id,
        name: content.name.clone(),
        width: content.width,
        height: content.height,
        offsetx: content.offsetx,
        offsety: content.offsety,
        data,
    };
    Some(LayerType::new(layer.kind(), image))
}

/// Performs a replacement or a resize on a document. On an error the
/// document is left as it was.
fn remap(map: &mut TileMap, command: Commands) -> (r: Result<(), RemapError>)
    requires
        !(command is Convert),
    ensures
        match applied(old(map)@, command) {
            Ok(image) => r is Ok && final(map)@ == image,
            Err(e) => r == Err::<(), RemapError>(e) && final(map)@ == old(map)@,
        },
{
    if map.tilesets.len() == 0 {
        return Err(RemapError::MissingTileset);
    }
    let old_columns = map.tilesets[0].columns;
    let ghost before = map@;
    let mut layers: Vec<LayerType> = Vec::new();
    for i in 0..map.layers.len()
        invariant
            map@ == before,
            before.tilesets.len() > 0,
            old_columns == before.tilesets[0].columns,
            layers.len() == i,
            forall|k: int|
                0 <= k < i ==> layer_mappable(command, old_columns, #[trigger] before.layers[k]),
            forall|k: int|
                0 <= k < i ==> (#[trigger] layers[k])@ == layer_image(
                    command,
                    old_columns,
                    before.layers[k],
                ),
    {
        assert(before.layers[i as int] == map.layers[i as int]@);
        match remap_layer(&map.layers[i], command, old_columns) {
            None => {
                return Err(RemapError::Unmappable);
            },
            Some(layer) => {
                layers.push(layer);
            },
        }
    }
    proof {
        let expected = before.layers.map_values(
            |layer: LayerTypeView| layer_image(command, old_columns, layer),
        );
        assert forall|k: int| 0 <= k < expected.len() implies layers.deep_view()[k]
            == expected[k] by {}
        assert(layers.deep_view() == expected);
    }
    map.layers = layers;
    if let Commands::Resize { tilecount, columns } = command {
        let mut tileset = map.tilesets.remove(0);
        tileset.columns = columns;
        tileset.tilecount = tilecount;
        map.tilesets.insert(0, tileset);
    }
    proof {
        let expected = before.tilesets.update(0, tileset_image(command, before.tilesets[0]));
        assert forall|k: int| 0 <= k < expected.len() implies map.tilesets.deep_view()[k]
            == expected[k] by {}
        assert(map.tilesets.deep_view() == expected);
    }
    Ok(())
}

/// Replaces, in every grid of the document, the tile with logical index
/// `find` by the tile with logical index `with`.
///
/// Fails without a tileset, and where a cell would get a stored value that
/// does not fit; the document is then left as it was.
pub fn replace(map: &mut TileMap, find: u32, with: u32) -> (r: Result<(), RemapError>)
    ensures
        match applied(old(map)@, Commands::Replace { find, replace: with }) {
            Ok(image) => r is Ok && final(map)@ == image,
            Err(e) => r == Err::<(), RemapError>(e) && final(map)@ == old(map)@,
        },
{
    remap(map, Commands::Replace { find, replace: with })
}

/// Moves every tile of the document to a first tileset of `columns` columns,
/// then sets the width and the number of tiles of that tileset.
///
/// Fails without a tileset, and where a cell has no stored value after the
/// move; the document is then left as it was.
pub fn resize(map: &mut TileMap, tilecount: u32, columns: u32) -> (r: Result<(), RemapError>)
    ensures
        match applied(old(map)@, Commands::Resize { tilecount, columns }) {
            Ok(image) => r is Ok && final(map)@ == image,
            Err(e) => r == Err::<(), RemapError>(e) && final(map)@ == old(map)@,
        },
{
    remap(map, Commands::Resize { tilecount, columns })
}

/// Performs one operation on a document and says in which shape the
/// document is to be written out. A conversion changes nothing in the
/// document: every attribute and every cell stays as it is.
pub fn apply(map: &mut TileMap, command: Commands) -> (r: Result<SerializationFormat, RemapError>)
    ensures
        match applied(old(map)@, command) {
            Ok(image) => r == Ok::<SerializationFormat, RemapError>(format_of(command))
                && final(map)@ == image,
            Err(e) => r == Err::<SerializationFormat, RemapError>(e) && final(map)@ == old(map)@,
        },
        command is Convert ==> r is Ok && final(map)@ == old(map)@,
{
    match command {
        Commands::Convert => Ok(SerializationFormat::JsonFormat),
        _ => match remap(map, command) {
            Ok(()) => Ok(SerializationFormat::XmlFormat),
            Err(e) => Err(e),
        },
    }
}

/// A conversion keeps the whole document, every attribute and every cell of
/// every grid, and asks for the JSON shape; no other operation does.
pub proof fn lemma_convert_keeps_document(map: TileMapView, command: Commands)
    ensures
        applied(map, Commands::Convert) == Ok::<TileMapView, RemapError>(map),
        format_of(command) == SerializationFormat::JsonFormat <==> command is Convert,
{
}

/// A replacement leaves the empty cell empty and never empties a cell; and
/// after a replacement by another tile no cell holds the replaced tile.
pub proof fn lemma_replace_keeps_empty(cell: u32, find: u32, replace: u32)
    ensures
        replaced_cell(EMPTY, find, replace) == Some(EMPTY),
        cell != EMPTY && replaced_cell(cell, find, replace) is Some ==> replaced_cell(
            cell,
            find,
            replace,
        )->0 != EMPTY,
        find != replace && replaced_cell(cell, find, replace) is Some ==> logical_of(
            replaced_cell(cell, find, replace)->0,
        ) != Some(find),
{
}

/// A resize keeps a tile at its place in the image: the moved tile lies in
/// the same row, and in the same column of that row, under the new width as
/// the tile did under the old width, provided that the new width has that
/// column. The empty cell stays empty.
pub proof fn lemma_resize_keeps_position(cell: u32, old_columns: u32, columns: u32)
    requires
        old_columns > 0,
        resized_cell(cell, old_columns, columns) is Some,
    ensures
        cell == EMPTY ==> resized_cell(cell, old_columns, columns) == Some(EMPTY),
        cell != EMPTY && (cell - 1) % (old_columns as int) < columns ==> {
            let moved = resized_cell(cell, old_columns, columns)->0;
            &&& moved != EMPTY
            &&& (moved - 1) / (columns as int) == (cell - 1) / (old_columns as int)
            &&& (moved - 1) % (columns as int) == (cell - 1) % (old_columns as int)
        },
{
    if cell != EMPTY && (cell - 1) % (old_columns as int) < columns {
        let logical = cell - 1;
        let old = old_columns as int;
        let new = columns as int;
        let row = logical / old;
        let column = logical % old;
        assert(logical == row * old + column && 0 <= column < old && row >= 0)
            by (nonlinear_arith)
            requires
                row == logical / old,
                column == logical % old,
                old > 0,
                logical >= 0,
        ;
        if cell >= old_columns {
            let moved = moved_cell(cell, old_columns, columns);
            assert(moved - 1 == row * new + column) by (nonlinear_arith)
                requires
                    moved == cell + row * (new - old),
                    cell - 1 == row * old + column,
            ;
            assert((row * new + column) / new == row && (row * new + column) % new == column)
                by (nonlinear_arith)
                requires
                    0 <= column < new,
                    row >= 0,
            ;
        } else {
            assert(row == 0 && column == logical) by (nonlinear_arith)
                requires
                    logical == row * old + column,
                    0 <= column < old,
                    row >= 0,
                    logical < old,
            ;
            assert(logical / new == 0 && logical % new == logical) by (nonlinear_arith)
                requires
                    0 <= logical < new,
            ;
        }
    }
}

} // verus!
