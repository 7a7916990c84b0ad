//! The projection of a document into its field tree, in either shape.

use vstd::prelude::*;
use crate::format::SerializationFormat;
use crate::grid::{encode, encode_text, GridError};
use crate::model::{
    Data, DataView, EditorSettings, EditorSettingsView, Export, ExportView, Image, ImageView,
    Layer, LayerKind, LayerType, LayerTypeView, LayerView, TileMap, TileMapView, TileSet,
    TileSetView,
};
use crate::node::{
    append_fields, number_if_some, number_or_null, push_field, push_node, push_number_if_some,
    text_or_null, Field, FieldView, Node, NodeView,
};

verus! {

/// A value under a key.
pub open spec fn field(key: Seq<char>, value: NodeView) -> FieldView {
    FieldView { key, value }
}

/// An image as an object of its own: source, width and height.
pub open spec fn image_node(format: SerializationFormat, image: ImageView) -> NodeView {
    NodeView::Object(
        seq![
            field(format.name_of("@source"@), NodeView::Text(image.source)),
            field(format.name_of("@width"@), NodeView::Number(image.width)),
            field(format.name_of("@height"@), NodeView::Number(image.height)),
        ],
    )
}

/// The fields that the image of a tileset adds to the tileset. The XML shape
/// nests the three values in one `image` object; the JSON shape puts them
/// beside the other fields of the tileset, as `image`, `imageheight` and
/// `imagewidth`. Either way the keys come in ascending order.
pub open spec fn image_fields(format: SerializationFormat, image: ImageView) -> Seq<FieldView> {
    match format {
        SerializationFormat::XmlFormat => seq![
            field(
                "image"@,
                NodeView::Object(
                    seq![
                        field(format.name_of("@height"@), NodeView::Number(image.height)),
                        field(format.name_of("@source"@), NodeView::Text(image.source)),
                        field(format.name_of("@width"@), NodeView::Number(image.width)),
                    ],
                ),
            ),
        ],
        SerializationFormat::JsonFormat => seq![
            field("image"@, NodeView::Text(image.source)),
            field("imageheight"@, NodeView::Number(image.height)),
            field("imagewidth"@, NodeView::Number(image.width)),
        ],
    }
}

/// An export setting as an object.
pub open spec fn export_node(format: SerializationFormat, export: ExportView) -> NodeView {
    NodeView::Object(
        seq![
            field(format.name_of("@target"@), NodeView::Text(export.target)),
            field(format.name_of("@format"@), NodeView::Text(export.format)),
        ],
    )
}

/// The editor settings as an object.
pub open spec fn editor_settings_node(
    format: SerializationFormat,
    settings: EditorSettingsView,
) -> NodeView {
    NodeView::Object(seq![field("export"@, export_node(format, settings.export))])
}

/// The six attributes of a tileset.
pub open spec fn tileset_attributes(format: SerializationFormat, tileset: TileSetView) -> Seq<
    FieldView,
> {
    seq![
        field(format.name_of("@firstgid"@), NodeView::Number(tileset.firstgid)),
        field(format.name_of("@name"@), NodeView::Text(tileset.name)),
        field(format.name_of("@tilewidth"@), NodeView::Number(tileset.tilewidth)),
        field(format.name_of("@tileheight"@), NodeView::Number(tileset.tileheight)),
        field(format.name_of("@tilecount"@), NodeView::Number(tileset.tilecount)),
        field(format.name_of("@columns"@), NodeView::Number(tileset.columns)),
    ]
}

/// A tileset as an object: its attributes, then the fields of its image.
pub open spec fn tileset_node(format: SerializationFormat, tileset: TileSetView) -> NodeView {
    NodeView::Object(tileset_attributes(format, tileset) + image_fields(format, tileset.image))
}

/// The cells of a grid as values.
pub open spec fn cell_nodes(cells: Seq<u32>) -> Seq<NodeView> {
    cells.map_values(|cell: u32| NodeView::Number(cell))
}

/// A grid as a value. The XML shape has the label of the encoding and the
/// text of the grid; the JSON shape has one list of all cells, row after row.
pub open spec fn data_node(format: SerializationFormat, data: DataView) -> NodeView {
    match format {
        SerializationFormat::XmlFormat => NodeView::Object(
            seq![
                field("@encoding"@, NodeView::Text(data.encoding)),
                field("$text"@, NodeView::Text(encode_text(data.data))),
            ],
        ),
        SerializationFormat::JsonFormat => NodeView::List(cell_nodes(data.data.flatten())),
    }
}

/// The `type` field of a layer, in the shape that has one.
pub open spec fn type_fields(format: SerializationFormat, kind: LayerKind) -> Seq<FieldView> {
    match format.layer_type_of(kind) {
        Some(tag) => seq![field(format.name_of("@type"@), NodeView::Text(tag))],
        None => Seq::empty(),
    }
}

/// The `data` field of a layer that has a grid.
pub open spec fn data_fields(format: SerializationFormat, data: Option<DataView>) -> Seq<
    FieldView,
> {
    match data {
        Some(data) => seq![field("data"@, data_node(format, data))],
        None => Seq::empty(),
    }
}

/// The attributes of a layer: each optional one only where the layer has it.
pub open spec fn layer_attributes(format: SerializationFormat, layer: LayerView) -> Seq<
    FieldView,
> {
    number_if_some(format.name_of("@id"@), layer.id) + seq![
        field(format.name_of("@name"@), NodeView::Text(layer.name)),
    ] + number_if_some(format.name_of("@width"@), layer.width) + number_if_some(
        format.name_of("@height"@),
        layer.height,
    ) + number_if_some(format.name_of("@offsetx"@), layer.offsetx) + number_if_some(
        format.name_of("@offsety"@),
        layer.offsety,
    )
}

/// The fields of a layer: the `type` field in the shape that has one, the
/// attributes, and the grid if the layer has one.
pub open spec fn layer_fields(format: SerializationFormat, layer: LayerTypeView) -> Seq<
    FieldView,
> {
    type_fields(format, layer.kind) + layer_attributes(format, layer.layer) + data_fields(
        format,
        layer.layer.data,
    )
}

/// A layer as an object.
pub open spec fn layer_node(format: SerializationFormat, layer: LayerTypeView) -> NodeView {
    NodeView::Object(layer_fields(format, layer))
}

/// The test for a layer of a given kind.
pub open spec fn is_kind(kind: LayerKind) -> spec_fn(LayerTypeView) -> bool {
    |layer: LayerTypeView| layer.kind == kind
}

/// Layers as values, in order.
pub open spec fn layer_nodes(format: SerializationFormat, layers: Seq<LayerTypeView>) -> Seq<
    NodeView,
> {
    layers.map_values(|layer: LayerTypeView| layer_node(format, layer))
}

/// The layers of one kind, in the order of the document, under the key of
/// their collection.
pub open spec fn bucket(
    format: SerializationFormat,
    layers: Seq<LayerTypeView>,
    kind: LayerKind,
    name: Seq<char>,
) -> FieldView {
    field(
        format.vec_name_of(name),
        NodeView::List(layer_nodes(format, layers.filter(is_kind(kind)))),
    )
}

/// The fields that the layers of a document add to the document. The XML
/// shape has one collection for each kind of layer, which keeps the order
/// within a kind and gives up the order between kinds; the JSON shape has
/// one collection of all layers in the order of the document.
pub open spec fn layers_fields(format: SerializationFormat, layers: Seq<LayerTypeView>) -> Seq<
    FieldView,
> {
    match format {
        SerializationFormat::XmlFormat => seq![
            bucket(format, layers, LayerKind::Object, "objectgroups"@),
            bucket(format, layers, LayerKind::Tile, "layers"@),
            bucket(format, layers, LayerKind::Image, "imagelayers"@),
            bucket(format, layers, LayerKind::Group, "groups"@),
        ],
        SerializationFormat::JsonFormat => seq![
            field(format.vec_name_of("layers"@), NodeView::List(layer_nodes(format, layers))),
        ],
    }
}

/// Tilesets as values, in order.
pub open spec fn tileset_nodes(format: SerializationFormat, tilesets: Seq<TileSetView>) -> Seq<
    NodeView,
> {
    tilesets.map_values(|tileset: TileSetView| tileset_node(format, tileset))
}

/// The twelve attributes of a document.
pub open spec fn map_attributes(format: SerializationFormat, map: TileMapView) -> Seq<FieldView> {
    seq![
        field(format.name_of("@version"@), NodeView::Text(map.version)),
        field(format.name_of("@tiledversion"@), text_or_null(map.tiledversion)),
        field(format.name_of("@orientation"@), NodeView::Text(map.orientation)),
        field(format.name_of("@renderorder"@), NodeView::Text(map.renderorder)),
        field(format.name_of("@width"@), NodeView::Number(map.width)),
        field(format.name_of("@height"@), NodeView::Number(map.height)),
        field(format.name_of("@tilewidth"@), NodeView::Number(map.tilewidth)),
        field(format.name_of("@tileheight"@), NodeView::Number(map.tileheight)),
        field(format.name_of("@infinite"@), number_or_null(map.infinite)),
        field(format.name_of("@backgroundcolor"@), text_or_null(map.backgroundcolor)),
        field(format.name_of("@nextlayerid"@), number_or_null(map.nextlayerid)),
        field(format.name_of("@nextobjectid"@), number_or_null(map.nextobjectid)),
    ]
}

/// The attributes of a document, then its editor settings and its tilesets.
pub open spec fn map_head_fields(format: SerializationFormat, map: TileMapView) -> Seq<FieldView> {
    map_attributes(format, map) + seq![
        field(
            "editorsettings"@,
            match map.editorsettings {
                Some(settings) => editor_settings_node(format, settings),
                None => NodeView::Null,
            },
        ),
        field(
            format.vec_name_of("tilesets"@),
            NodeView::List(tileset_nodes(format, map.tilesets)),
        ),
    ]
}

/// A document as an object.
pub open spec fn map_node(format: SerializationFormat, map: TileMapView) -> NodeView {
    NodeView::Object(map_head_fields(format, map) + layers_fields(format, map.layers))
}

impl SerializationFormat {
    /// The fields that the image of a tileset adds to the tileset.
    pub fn transform_image(self, image: &Image) -> (fields: Vec<Field>)
        ensures
            fields.deep_view() == image_fields(self, image@),
    {
        let mut fields: Vec<Field> = Vec::new();
        match self {
            SerializationFormat::XmlFormat => {
                let mut inner: Vec<Field> = Vec::new();
                push_field(
                    &mut inner,
                    Field::new(self.transform_name("@height"), Node::Number(image.height)),
                );
                push_field(
                    &mut inner,
                    Field::new(self.transform_name("@source"), Node::text(&image.source)),
                );
                push_field(
                    &mut inner,
                    Field::new(self.transform_name("@width"), Node::Number(image.width)),
                );
                assert(inner.deep_view() =~= seq![
                    field(self.name_of("@height"@), NodeView::Number(image.height)),
                    field(self.name_of("@source"@), NodeView::Text(image@.source)),
                    field(self.name_of("@width"@), NodeView::Number(image.width)),
                ]);
                push_field(&mut fields, Field::new("image", Node::object(inner)));
            },
            SerializationFormat::JsonFormat => {
                push_field(&mut fields, Field::new("image", Node::text(&image.source)));
                push_field(&mut fields, Field::new("imageheight", Node::Number(image.height)));
                push_field(&mut fields, Field::new("imagewidth", Node::Number(image.width)));
            },
        }
        fields
    }
}

impl Image {
    /// The image as an object of its own.
    pub fn serialize(&self, format: SerializationFormat) -> (node: Node)
        ensures
            node@ == image_node(format, self@),
    {
        let mut fields: Vec<Field> = Vec::new();
        push_field(
            &mut fields,
            Field::new(format.transform_name("@source"), Node::text(&self.source)),
        );
        push_field(
            &mut fields,
            Field::new(format.transform_name("@width"), Node::Number(self.width)),
        );
        push_field(
            &mut fields,
            Field::new(format.transform_name("@height"), Node::Number(self.height)),
        );
        assert(fields.deep_view() =~= image_node(format, self@)->Object_0);
        Node::object(fields)
    }
}

impl Export {
    /// The export setting as an object.
    pub fn serialize(&self, format: SerializationFormat) -> (node: Node)
        ensures
            node@ == export_node(format, self@),
    {
        let mut fields: Vec<Field> = Vec::new();
        push_field(
            &mut fields,
            Field::new(format.transform_name("@target"), Node::text(&self.target)),
        );
        push_field(
            &mut fields,
            Field::new(format.transform_name("@format"), Node::text(&self.format)),
        );
        assert(fields.deep_view() =~= export_node(format, self@)->Object_0);
        Node::object(fields)
    }
}

impl EditorSettings {
    /// The editor settings as an object.
    pub fn serialize(&self, format: SerializationFormat) -> (node: Node)
        ensures
            node@ == editor_settings_node(format, self@),
    {
        let mut fields: Vec<Field> = Vec::new();
        push_field(&mut fields, Field::new("export", self.export.serialize(format)));
        assert(fields.deep_view() =~= editor_settings_node(format, self@)->Object_0);
        Node::object(fields)
    }
}

impl TileSet {
    /// The tileset as an object.
    pub fn serialize(&self, format: SerializationFormat) -> (node: Node)
        ensures
            node@ == tileset_node(format, self@),
    {
        let mut fields: Vec<Field> = Vec::new();
        push_field(
            &mut fields,
            Field::new(format.transform_name("@firstgid"), Node::Number(self.firstgid)),
        );
        push_field(&mut fields, Field::new(format.transform_name("@name"), Node::text(&self.name)));
        push_field(
            &mut fields,
            Field::new(format.transform_name("@tilewidth"), Node::Number(self.tilewidth)),
        );
        push_field(
            &mut fields,
            Field::new(format.transform_name("@tileheight"), Node::Number(self.tileheight)),
        );
        push_field(
            &mut fields,
            Field::new(format.transform_name("@tilecount"), Node::Number(self.tilecount)),
        );
        push_field(
            &mut fields,
            Field::new(format.transform_name("@columns"), Node::Number(self.columns)),
        );
        append_fields(&mut fields, format.transform_image(&self.image));
        assert(fields.deep_view() =~= tileset_node(format, self@)->Object_0);
        Node::object(fields)
    }
}

impl SerializationFormat {
    /// A grid as a value.
    pub fn serialize_data(self, data: &Data) -> (r: Result<Node, GridError>)
        ensures
            r is Ok,
            r->Ok_0@ == data_node(self, data@),
    {
        match self {
            SerializationFormat::XmlFormat => {
                let text = encode(&data.data)?;
                let mut fields: Vec<Field> = Vec::new();
                push_field(&mut fields, Field::new("@encoding", Node::text(&data.encoding)));
                push_field(&mut fields, Field::new("$text", Node::Text(text)));
                assert(fields.deep_view() =~= data_node(self, data@)->Object_0);
                Ok(Node::object(fields))
            },
            SerializationFormat::JsonFormat => {
                let mut cells: Vec<Node> = Vec::new();
                let ghost grid = data.data.deep_view();
                for r in 0..data.data.len()
                    invariant
                        grid == data.data.deep_view(),
                        cells.deep_view() == cell_nodes(grid.take(r as int).flatten()),
                {
                    let row = &data.data[r];
                    let ghost done = grid.take(r as int).flatten();
                    for c in 0..row.len()
                        invariant
                            cells.deep_view() == cell_nodes(done + row@.take(c as int)),
                    {
                        push_node(&mut cells, Node::Number(row[c]));
                    }
                    proof {
                        assert(grid.take(r + 1) =~= grid.take(r as int).push(grid[r as int]));
                        grid.take(r as int).lemma_flatten_push(grid[r as int]);
                    }
                }
                assert(grid.take(grid.len() as int) =~= grid);
                Ok(Node::list(cells))
            },
        }
    }
}

impl Data {
    /// The grid as a value, in the given shape.
    pub fn serialize(&self, format: SerializationFormat) -> (r: Result<Node, GridError>)
        ensures
            r is Ok,
            r->Ok_0@ == data_node(format, self@),
    {
        format.serialize_data(self)
    }
}

impl SerializationFormat {
    /// The `type` field of a layer, in the shape that has one.
    fn type_fields(self, layer: &LayerType) -> (fields: Vec<Field>)
        ensures
            fields.deep_view() == type_fields(self, layer@.kind),
    {
        let mut fields: Vec<Field> = Vec::new();
        if let Some(layer_type) = self.layer_type(layer) {
            push_field(
                &mut fields,
                Field::new(self.transform_name("@type"), Node::Text(layer_type.to_owned())),
            );
        }
        fields
    }

    /// The `data` field of a layer that has a grid.
    fn data_fields(self, data: &Option<Data>) -> (r: Result<Vec<Field>, GridError>)
        ensures
            r is Ok,
            r->Ok_0.deep_view() == data_fields(
                self,
                match *data {
                    Some(data) => Some(data@),
                    None => None,
                },
            ),
    {
        let mut fields: Vec<Field> = Vec::new();
        if let Some(data) = data {
            push_field(&mut fields, Field::new("data", data.serialize(self)?));
        }
        Ok(fields)
    }
}

impl Layer {
    /// The attributes of the layer.
    fn attributes(&self, format: SerializationFormat) -> (fields: Vec<Field>)
        ensures
            fields.deep_view() == layer_attributes(format, self@),
    {
        let mut fields: Vec<Field> = Vec::new();
        push_number_if_some(&mut fields, format.transform_name("@id"), self.id);
        push_field(&mut fields, Field::new(format.transform_name("@name"), Node::text(&self.name)));
        push_number_if_some(&mut fields, format.transform_name("@width"), self.width);
        push_number_if_some(&mut fields, format.transform_name("@height"), self.height);
        push_number_if_some(&mut fields, format.transform_name("@offsetx"), self.offsetx);
        push_number_if_some(&mut fields, format.transform_name("@offsety"), self.offsety);
        fields
    }
}

impl LayerType {
    /// The layer as an object.
    pub fn serialize(&self, format: SerializationFormat) -> (r: Result<Node, GridError>)
        ensures
            r is Ok,
            r->Ok_0@ == layer_node(format, self@),
    {
        let layer = self.layer();
        let mut fields = format.type_fields(self);
        append_fields(&mut fields, layer.attributes(format));
        append_fields(&mut fields, format.data_fields(&layer.data)?);
        Ok(Node::object(fields))
    }
}

impl SerializationFormat {
    /// The layers of one kind as one collection.
    fn bucket(self, layers: &Vec<LayerType>, kind: LayerKind, name: &str) -> (r: Result<
        Field,
        GridError,
    >)
        ensures
            r is Ok,
            r->Ok_0@ == bucket(self, layers.deep_view(), kind, name@),
    {
        let mut nodes: Vec<Node> = Vec::new();
        let ghost all = layers.deep_view();
        proof {
            reveal(Seq::filter);
        }
        for i in 0..layers.len()
            invariant
                all == layers.deep_view(),
                nodes.deep_view() == layer_nodes(self, all.take(i as int).filter(is_kind(kind))),
        {
            let layer = &layers[i];
            proof {
                reveal(Seq::filter);
                assert(all.take(i + 1).drop_last() =~= all.take(i as int));
            }
            if layer.kind() == kind {
                push_node(&mut nodes, layer.serialize(self)?);
            }
            assert(nodes.deep_view() =~= layer_nodes(
                self,
                all.take(i + 1).filter(is_kind(kind)),
            ));
        }
        assert(all.take(all.len() as int) =~= all);
        Ok(Field::new(self.transform_vec_name(name), Node::list(nodes)))
    }

    /// The fields that the layers of a document add to the document.
    pub fn transform_layers(self, layers: &Vec<LayerType>) -> (r: Result<Vec<Field>, GridError>)
        ensures
            r is Ok,
            r->Ok_0.deep_view() == layers_fields(self, layers.deep_view()),
    {
        let mut fields: Vec<Field> = Vec::new();
        match self {
            SerializationFormat::XmlFormat => {
                let objects = self.bucket(layers, LayerKind::Object, "objectgroups")?;
                let tiles = self.bucket(layers, LayerKind::Tile, "layers")?;
                let images = self.bucket(layers, LayerKind::Image, "imagelayers")?;
                let groups = self.bucket(layers, LayerKind::Group, "groups")?;
                push_field(&mut fields, objects);
                push_field(&mut fields, tiles);
                push_field(&mut fields, images);
                push_field(&mut fields, groups);
            },
            SerializationFormat::JsonFormat => {
                let mut nodes: Vec<Node> = Vec::new();
                let ghost all = layers.deep_view();
                for i in 0..layers.len()
                    invariant
                        self is JsonFormat,
                        all == layers.deep_view(),
                        nodes.deep_view() == layer_nodes(self, all.take(i as int)),
                {
                    push_node(&mut nodes, layers[i].serialize(self)?);
                }
                assert(all.take(all.len() as int) =~= all);
                push_field(
                    &mut fields,
                    Field::new(self.transform_vec_name("layers"), Node::list(nodes)),
                );
            },
        }
        Ok(fields)
    }
}

impl TileMap {
    /// The attributes, the editor settings and the tilesets of the document.
    fn head_fields(&self, format: SerializationFormat) -> (fields: Vec<Field>)
        ensures
            fields.deep_view() == map_head_fields(format, self@),
    {
        let mut tilesets: Vec<Node> = Vec::new();
        let ghost all = self.tilesets.deep_view();
        for i in 0..self.tilesets.len()
            invariant
                all == self.tilesets.deep_view(),
                tilesets.deep_view() == tileset_nodes(format, all.take(i as int)),
        {
            push_node(&mut tilesets, self.tilesets[i].serialize(format));
        }
        assert(all.take(all.len() as int) =~= all);
        let settings = match &self.editorsettings {
            Some(settings) => settings.serialize(format),
            None => Node::Null,
        };
        let mut fields: Vec<Field> = Vec::new();
        push_field(
            &mut fields,
            Field::new(format.transform_name("@version"), Node::text(&self.version)),
        );
        push_field(
            &mut fields,
            Field::new(
                format.transform_name("@tiledversion"),
                Node::text_or_null(&self.tiledversion),
            ),
        );
        push_field(
            &mut fields,
            Field::new(format.transform_name("@orientation"), Node::text(&self.orientation)),
        );
        push_field(
            &mut fields,
            Field::new(format.transform_name("@renderorder"), Node::text(&self.renderorder)),
        );
        push_field(
            &mut fields,
            Field::new(format.transform_name("@width"), Node::Number(self.width)),
        );
        push_field(
            &mut fields,
            Field::new(format.transform_name("@height"), Node::Number(self.height)),
        );
        push_field(
            &mut fields,
            Field::new(format.transform_name("@tilewidth"), Node::Number(self.tilewidth)),
        );
        push_field(
            &mut fields,
            Field::new(format.transform_name("@tileheight"), Node::Number(self.tileheight)),
        );
        push_field(
            &mut fields,
            Field::new(format.transform_name("@infinite"), Node::number_or_null(self.infinite)),
        );
        push_field(
            &mut fields,
            Field::new(
                format.transform_name("@backgroundcolor"),
                Node::text_or_null(&self.backgroundcolor),
            ),
        );
        push_field(
            &mut fields,
            Field::new(
                format.transform_name("@nextlayerid"),
                Node::number_or_null(self.nextlayerid),
            ),
        );
        push_field(
            &mut fields,
            Field::new(
                format.transform_name("@nextobjectid"),
                Node::number_or_null(self.nextobjectid),
            ),
        );
        push_field(&mut fields, Field::new("editorsettings", settings));
        push_field(
            &mut fields,
            Field::new(format.transform_vec_name("tilesets"), Node::list(tilesets)),
        );
        fields
    }

    /// The document as an object, in the given shape.
    pub fn serialize(&self, format: SerializationFormat) -> (r: Result<Node, GridError>)
        ensures
            r is Ok,
            r->Ok_0@ == map_node(format, self@),
    {
        let mut fields = self.head_fields(format);
        append_fields(&mut fields, format.transform_layers(&self.layers)?);
        Ok(Node::object(fields))
    }
}

/// Fields with the attribute marker taken off their keys.
pub open spec fn unmarked(fields: Seq<FieldView>) -> Seq<FieldView> {
    fields.map_values(
        |entry: FieldView| field(SerializationFormat::JsonFormat.name_of(entry.key), entry.value),
    )
}

/// The two shapes agree on every attribute: the JSON shape writes the
/// attributes of a document, of a tileset, of a layer, of an image and of an
/// export setting with the values that the XML shape writes, in the same
/// order, under the same keys without the marker.
pub proof fn lemma_shapes_agree_on_attributes(
    map: TileMapView,
    tileset: TileSetView,
    layer: LayerView,
    image: ImageView,
    export: ExportView,
)
    ensures
        map_attributes(SerializationFormat::JsonFormat, map) == unmarked(
            map_attributes(SerializationFormat::XmlFormat, map),
        ),
        tileset_attributes(SerializationFormat::JsonFormat, tileset) == unmarked(
            tileset_attributes(SerializationFormat::XmlFormat, tileset),
        ),
        layer_attributes(SerializationFormat::JsonFormat, layer) == unmarked(
            layer_attributes(SerializationFormat::XmlFormat, layer),
        ),
        image_node(SerializationFormat::JsonFormat, image) == NodeView::Object(
            unmarked(image_node(SerializationFormat::XmlFormat, image)->Object_0),
        ),
        export_node(SerializationFormat::JsonFormat, export) == NodeView::Object(
            unmarked(export_node(SerializationFormat::XmlFormat, export)->Object_0),
        ),
{
    let json = SerializationFormat::JsonFormat;
    let xml = SerializationFormat::XmlFormat;
    assert(image_node(json, image)->Object_0 =~= unmarked(image_node(xml, image)->Object_0));
    assert(export_node(json, export)->Object_0 =~= unmarked(export_node(xml, export)->Object_0));
}

/// The XML shape loses no layer and repeats none: its four collections hold
/// together as many layers as the document has.
pub proof fn lemma_buckets_hold_every_layer(layers: Seq<LayerTypeView>)
    ensures
        layers.filter(is_kind(LayerKind::Object)).len() + layers.filter(
            is_kind(LayerKind::Tile),
        ).len() + layers.filter(is_kind(LayerKind::Image)).len() + layers.filter(
            is_kind(LayerKind::Group),
        ).len() == layers.len(),
    decreases layers.len(),
{
    reveal(Seq::filter);
    if layers.len() > 0 {
        lemma_buckets_hold_every_layer(layers.drop_last());
    }
}

/// The JSON shape writes every cell of a grid, unchanged and in the order of
/// the rows: as many values as the grid has cells, and the cell in row `r`,
/// column `c` of a grid whose rows before `r` hold `before` cells at place
/// `before + c`.
pub proof fn lemma_json_holds_every_cell(data: DataView, r: int, c: int)
    requires
        0 <= r < data.data.len(),
        0 <= c < data.data[r].len(),
    ensures
        data_node(SerializationFormat::JsonFormat, data) is List,
        ({
            let cells = data_node(SerializationFormat::JsonFormat, data)->List_0;
            let before = data.data.take(r).flatten().len();
            &&& cells.len() == data.data.flatten().len()
            &&& before + c < cells.len()
            &&& cells[before + c] == NodeView::Number(data.data[r][c])
        }),
{
    let grid = data.data;
    let head = grid.take(r + 1);
    assert(head =~= grid.take(r).push(grid[r]));
    grid.take(r).lemma_flatten_push(grid[r]);
    assert(grid =~= head + grid.skip(r + 1));
    vstd::seq_lib::lemma_flatten_concat(head, grid.skip(r + 1));
}

} // verus!
