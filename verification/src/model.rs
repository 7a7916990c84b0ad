//! The document model of a tile map, and the mathematical view of each of
//! its parts.

use vstd::prelude::*;

verus! {

/// The image that a tileset cuts its tiles from.
#[derive(Debug, Clone, PartialEq, Eq)]
pub struct Image {
    pub source: String,
    pub width: u32,
    pub height: u32,
}

pub struct ImageView {
    pub source: Seq<char>,
    pub width: u32,
    pub height: u32,
}

impl View for Image {
    type V = ImageView;

    open spec fn view(&self) -> ImageView {
        ImageView { source: self.source@, width: self.width, height: self.height }
    }
}

impl DeepView for Image {
    type V = ImageView;

    open spec fn deep_view(&self) -> ImageView {
        self.view()
    }
}

/// The export target that the editor remembers for a map.
#[derive(Debug, Clone, PartialEq, Eq)]
pub struct Export {
    pub target: String,
    pub format: String,
}

pub struct ExportView {
    pub target: Seq<char>,
    pub format: Seq<char>,
}

impl View for Export {
    type V = ExportView;

    open spec fn view(&self) -> ExportView {
        ExportView { target: self.target@, format: self.format@ }
    }
}

impl DeepView for Export {
    type V = ExportView;

    open spec fn deep_view(&self) -> ExportView {
        self.view()
    }
}

/// Settings of the editor that are carried through unchanged.
#[derive(Debug, Clone, PartialEq, Eq)]
pub struct EditorSettings {
    pub export: Export,
}

pub struct EditorSettingsView {
    pub export: ExportView,
}

impl View for EditorSettings {
    type V = EditorSettingsView;

    open spec fn view(&self) -> EditorSettingsView {
        EditorSettingsView { export: self.export@ }
    }
}

impl DeepView for EditorSettings {
    type V = EditorSettingsView;

    open spec fn deep_view(&self) -> EditorSettingsView {
        self.view()
    }
}

/// A set of tiles cut from one image, `columns` tiles to a row.
#[derive(Debug, Clone, PartialEq, Eq)]
pub struct TileSet {
    pub firstgid: u32,
    pub name: String,
    pub tilewidth: u32,
    pub tileheight: u32,
    pub tilecount: u32,
    pub columns: u32,
    pub image: Image,
}

pub struct TileSetView {
    pub firstgid: u32,
    pub name: Seq<char>,
    pub tilewidth: u32,
    pub tileheight: u32,
    pub tilecount: u32,
    pub columns: u32,
    pub image: ImageView,
}

impl View for TileSet {
    type V = TileSetView;

    open spec fn view(&self) -> TileSetView {
        TileSetView {
            firstgid: self.firstgid,
            name: self.name@,
            tilewidth: self.tilewidth,
            tileheight: self.tileheight,
            tilecount: self.tilecount,
            columns: self.columns,
            image: self.image@,
        }
    }
}

impl DeepView for TileSet {
    type V = TileSetView;

    open spec fn deep_view(&self) -> TileSetView {
        self.view()
    }
}

/// The tile grid of a layer: rows of stored tile identifiers, with the label
/// of the encoding that the grid was read from.
#[derive(Debug, Clone, PartialEq, Eq)]
pub struct Data {
    pub encoding: String,
    pub data: Vec<Vec<u32>>,
}

pub struct DataView {
    pub encoding: Seq<char>,
    pub data: Seq<Seq<u32>>,
}

impl View for Data {
    type V = DataView;

    open spec fn view(&self) -> DataView {
        DataView { encoding: self.encoding@, data: self.data.deep_view() }
    }
}

impl DeepView for Data {
    type V = DataView;

    open spec fn deep_view(&self) -> DataView {
        self.view()
    }
}

impl Default for Data {
    /// A grid without rows and without a label.
    fn default() -> (data: Data)
        ensures
            data@ == (DataView { encoding: Seq::empty(), data: Seq::empty() }),
    {
        let data = Data { encoding: String::new(), data: Vec::new() };
        assert(data.data.deep_view() =~= Seq::<Seq<u32>>::empty());
        data
    }
}

/// What every kind of layer holds.
#[derive(Debug, Clone, PartialEq, Eq)]
pub struct Layer {
    pub id: Option<u32>,
    pub name: String,
    pub width: Option<u32>,
    pub height: Option<u32>,
    pub offsetx: Option<u32>,
    pub offsety: Option<u32>,
    pub data: Option<Data>,
}

pub struct LayerView {
    pub id: Option<u32>,
    pub name: Seq<char>,
    pub width: Option<u32>,
    pub height: Option<u32>,
    pub offsetx: Option<u32>,
    pub offsety: Option<u32>,
    pub data: Option<DataView>,
}

impl View for Layer {
    type V = LayerView;

    open spec fn view(&self) -> LayerView {
        LayerView {
            id: self.id,
            name: self.name@,
            width: self.width,
            height: self.height,
            offsetx: self.offsetx,
            offsety: self.offsety,
            data: match self.data {
                Some(data) => Some(data@),
                None => None,
            },
        }
    }
}

impl DeepView for Layer {
    type V = LayerView;

    open spec fn deep_view(&self) -> LayerView {
        self.view()
    }
}

impl Default for Layer {
    /// A layer without a name, without a grid and without any optional
    /// attribute.
    fn default() -> (layer: Layer)
        ensures
            layer@ == (LayerView {
                id: None,
                name: Seq::empty(),
                width: None,
                height: None,
                offsetx: None,
                offsety: None,
                data: None,
            }),
    {
        Layer {
            id: None,
            name: String::new(),
            width: None,
            height: None,
            offsetx: None,
            offsety: None,
            data: None,
        }
    }
}

impl Layer {
    /// The horizontal offset of the layer; a layer that states none has zero.
    pub fn offset_x(&self) -> (r: u32)
        ensures
            r == (match self.offsetx {
                Some(offset) => offset,
                None => 0,
            }),
    {
        match self.offsetx {
            Some(offset) => offset,
            None => 0,
        }
    }

    /// The vertical offset of the layer; a layer that states none has zero.
    pub fn offset_y(&self) -> (r: u32)
        ensures
            r == (match self.offsety {
                Some(offset) => offset,
                None => 0,
            }),
    {
        match self.offsety {
            Some(offset) => offset,
            None => 0,
        }
    }
}

/// The four kinds of layer.
#[derive(Debug, Clone, Copy, PartialEq, Eq, Structural)]
pub enum LayerKind {
    Tile,
    Image,
    Group,
    Object,
}

/// A layer of one of the four kinds.
#[derive(Debug, Clone, PartialEq, Eq)]
pub enum LayerType {
    Layer(Layer),
    ImageLayer(Layer),
    Group(Layer),
    ObjectGroup(Layer),
}

pub struct LayerTypeView {
    pub kind: LayerKind,
    pub layer: LayerView,
}

impl View for LayerType {
    type V = LayerTypeView;

    open spec fn view(&self) -> LayerTypeView {
        match self {
            LayerType::Layer(layer) => LayerTypeView { kind: LayerKind::Tile, layer: layer@ },
            LayerType::ImageLayer(layer) => LayerTypeView { kind: LayerKind::Image, layer: layer@ },
            LayerType::Group(layer) => LayerTypeView { kind: LayerKind::Group, layer: layer@ },
            LayerType::ObjectGroup(layer) => LayerTypeView {
                kind: LayerKind::Object,
                layer: layer@,
            },
        }
    }
}

impl DeepView for LayerType {
    type V = LayerTypeView;

    open spec fn deep_view(&self) -> LayerTypeView {
        self.view()
    }
}

impl LayerType {
    /// Which of the four kinds the layer is.
    pub fn kind(&self) -> (kind: LayerKind)
        ensures
            kind == self@.kind,
    {
        match self {
            LayerType::Layer(_) => LayerKind::Tile,
            LayerType::ImageLayer(_) => LayerKind::Image,
            LayerType::Group(_) => LayerKind::Group,
            LayerType::ObjectGroup(_) => LayerKind::Object,
        }
    }

    /// What the layer holds, whatever its kind.
    pub fn layer(&self) -> (layer: &Layer)
        ensures
            layer@ == self@.layer,
    {
        match self {
            LayerType::Layer(layer) => layer,
            LayerType::ImageLayer(layer) => layer,
            LayerType::Group(layer) => layer,
            LayerType::ObjectGroup(layer) => layer,
        }
    }

    /// A layer of the given kind with the given content.
    pub fn new(kind: LayerKind, layer: Layer) -> (r: LayerType)
        ensures
            r@ == (LayerTypeView { kind, layer: layer@ }),
    {
        match kind {
            LayerKind::Tile => LayerType::Layer(layer),
            LayerKind::Image => LayerType::ImageLayer(layer),
            LayerKind::Group => LayerType::Group(layer),
            LayerKind::Object => LayerType::ObjectGroup(layer),
        }
    }
}

/// A tile map document.
#[derive(Debug, Clone, PartialEq, Eq)]
pub struct TileMap {
    pub version: String,
    pub tiledversion: Option<String>,
    pub orientation: String,
    pub renderorder: String,
    pub width: u32,
    pub height: u32,
    pub tilewidth: u32,
    pub tileheight: u32,
    pub infinite: Option<u32>,
    pub backgroundcolor: Option<String>,
    pub nextlayerid: Option<u32>,
    pub nextobjectid: Option<u32>,
    pub editorsettings: Option<EditorSettings>,
    pub tilesets: Vec<TileSet>,
    pub layers: Vec<LayerType>,
}

pub struct TileMapView {
    pub version: Seq<char>,
    pub tiledversion: Option<Seq<char>>,
    pub orientation: Seq<char>,
    pub renderorder: Seq<char>,
    pub width: u32,
    pub height: u32,
    pub tilewidth: u32,
    pub tileheight: u32,
    pub infinite: Option<u32>,
    pub backgroundcolor: Option<Seq<char>>,
    pub nextlayerid: Option<u32>,
    pub nextobjectid: Option<u32>,
    pub editorsettings: Option<EditorSettingsView>,
    pub tilesets: Seq<TileSetView>,
    pub layers: Seq<LayerTypeView>,
}

impl View for TileMap {
    type V = TileMapView;

    open spec fn view(&self) -> TileMapView {
        TileMapView {
            version: self.version@,
            tiledversion: match self.tiledversion {
                Some(text) => Some(text@),
                None => None,
            },
            orientation: self.orientation@,
            renderorder: self.renderorder@,
            width: self.width,
            height: self.height,
            tilewidth: self.tilewidth,
            tileheight: self.tileheight,
            infinite: self.infinite,
            backgroundcolor: match self.backgroundcolor {
                Some(text) => Some(text@),
                None => None,
            },
            nextlayerid: self.nextlayerid,
            nextobjectid: self.nextobjectid,
            editorsettings: match self.editorsettings {
                Some(settings) => Some(settings@),
                None => None,
            },
            tilesets: self.tilesets.deep_view(),
            layers: self.layers.deep_view(),
        }
    }
}

impl DeepView for TileMap {
    type V = TileMapView;

    open spec fn deep_view(&self) -> TileMapView {
        self.view()
    }
}

} // verus!
