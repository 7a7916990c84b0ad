use tmx_edit::format::SerializationFormat;
use tmx_edit::model::{
    Data, EditorSettings, Export, Image, Layer, LayerType, TileMap, TileSet,
};
use tmx_edit::node::{append_fields, push_field, push_node, push_number_if_some, Field, Node};

const XML: SerializationFormat = SerializationFormat::XmlFormat;
const JSON: SerializationFormat = SerializationFormat::JsonFormat;

fn text(value: &str) -> Node {
    Node::Text(value.to_string())
}

fn field(key: &str, value: Node) -> Field {
    Field { key: key.to_string(), value }
}

fn image() -> Image {
    Image { source: "terrain.png".to_string(), width: 128, height: 64 }
}

fn tileset() -> TileSet {
    TileSet {
        firstgid: 1,
        name: "terrain".to_string(),
        tilewidth: 16,
        tileheight: 8,
        tilecount: 32,
        columns: 8,
        image: image(),
    }
}

fn data() -> Data {
    Data { encoding: "csv".to_string(), data: vec![vec![1, 2], vec![3, 4]] }
}

fn full_layer() -> Layer {
    Layer {
        id: Some(7),
        name: "ground".to_string(),
        width: Some(2),
        height: Some(2),
        offsetx: Some(5),
        offsety: Some(6),
        data: Some(data()),
    }
}

fn bare_layer(name: &str) -> Layer {
    Layer {
        id: None,
        name: name.to_string(),
        width: None,
        height: None,
        offsetx: None,
        offsety: None,
        data: None,
    }
}

fn map() -> TileMap {
    TileMap {
        version: "1.10".to_string(),
        tiledversion: Some("1.10.2".to_string()),
        orientation: "orthogonal".to_string(),
        renderorder: "right-down".to_string(),
        width: 2,
        height: 2,
        tilewidth: 16,
        tileheight: 8,
        infinite: Some(0),
        backgroundcolor: None,
        nextlayerid: Some(5),
        nextobjectid: None,
        editorsettings: Some(EditorSettings {
            export: Export { target: "out.json".to_string(), format: "json".to_string() },
        }),
        tilesets: vec![tileset()],
        layers: vec![
            LayerType::Group(bare_layer("g1")),
            LayerType::Layer(bare_layer("t1")),
            LayerType::ObjectGroup(bare_layer("o1")),
            LayerType::Layer(bare_layer("t2")),
            LayerType::ImageLayer(bare_layer("i1")),
            LayerType::ObjectGroup(bare_layer("o2")),
        ],
    }
}

fn xml_bare(name: &str) -> Node {
    Node::Object(vec![field("@name", text(name))])
}

fn json_bare(kind: &str, name: &str) -> Node {
    Node::Object(vec![field("type", text(kind)), field("name", text(name))])
}

fn fields_of(node: &Node) -> &Vec<Field> {
    match node {
        Node::Object(fields) => fields,
        _ => panic!("not an object"),
    }
}

#[test]
fn image_as_object() {
    assert_eq!(
        image().serialize(XML),
        Node::Object(vec![
            field("@source", text("terrain.png")),
            field("@width", Node::Number(128)),
            field("@height", Node::Number(64)),
        ])
    );
    assert_eq!(
        image().serialize(JSON),
        Node::Object(vec![
            field("source", text("terrain.png")),
            field("width", Node::Number(128)),
            field("height", Node::Number(64)),
        ])
    );
}

#[test]
fn xml_image_is_nested() {
    assert_eq!(
        XML.transform_image(&image()),
        vec![field(
            "image",
            Node::Object(vec![
                field("@height", Node::Number(64)),
                field("@source", text("terrain.png")),
                field("@width", Node::Number(128)),
            ])
        )]
    );
}

#[test]
fn json_image_is_flat() {
    assert_eq!(
        JSON.transform_image(&image()),
        vec![
            field("image", text("terrain.png")),
            field("imageheight", Node::Number(64)),
            field("imagewidth", Node::Number(128)),
        ]
    );
}

#[test]
fn export_as_object() {
    let export = Export { target: "a".to_string(), format: "b".to_string() };
    assert_eq!(
        export.serialize(XML),
        Node::Object(vec![field("@target", text("a")), field("@format", text("b"))])
    );
    assert_eq!(
        export.serialize(JSON),
        Node::Object(vec![field("target", text("a")), field("format", text("b"))])
    );
}

#[test]
fn editor_settings_as_object() {
    let settings =
        EditorSettings { export: Export { target: "a".to_string(), format: "b".to_string() } };
    assert_eq!(
        settings.serialize(JSON),
        Node::Object(vec![field(
            "export",
            Node::Object(vec![field("target", text("a")), field("format", text("b"))])
        )])
    );
}

#[test]
fn tileset_as_object() {
    assert_eq!(
        tileset().serialize(JSON),
        Node::Object(vec![
            field("firstgid", Node::Number(1)),
            field("name", text("terrain")),
            field("tilewidth", Node::Number(16)),
            field("tileheight", Node::Number(8)),
            field("tilecount", Node::Number(32)),
            field("columns", Node::Number(8)),
            field("image", text("terrain.png")),
            field("imageheight", Node::Number(64)),
            field("imagewidth", Node::Number(128)),
        ])
    );
    let xml = tileset().serialize(XML);
    let keys: Vec<&str> = fields_of(&xml).iter().map(|f| f.key.as_str()).collect();
    assert_eq!(
        keys,
        vec!["@firstgid", "@name", "@tilewidth", "@tileheight", "@tilecount", "@columns", "image"]
    );
}

#[test]
fn xml_grid_is_text() {
    assert_eq!(
        XML.serialize_data(&data()),
        Ok(Node::Object(vec![field("@encoding", text("csv")), field("$text", text("1,2\n3,4"))]))
    );
    assert_eq!(data().serialize(XML), XML.serialize_data(&data()));
}

#[test]
fn json_grid_is_one_flat_list() {
    assert_eq!(
        JSON.serialize_data(&data()),
        Ok(Node::List(vec![Node::Number(1), Node::Number(2), Node::Number(3), Node::Number(4)]))
    );
    let ragged = Data { encoding: "csv".to_string(), data: vec![vec![], vec![9], vec![8, 7]] };
    assert_eq!(
        ragged.serialize(JSON),
        Ok(Node::List(vec![Node::Number(9), Node::Number(8), Node::Number(7)]))
    );
    let empty = Data { encoding: "csv".to_string(), data: Vec::new() };
    assert_eq!(empty.serialize(JSON), Ok(Node::List(Vec::new())));
}

#[test]
fn layer_with_every_field() {
    assert_eq!(
        LayerType::Layer(full_layer()).serialize(XML),
        Ok(Node::Object(vec![
            field("@id", Node::Number(7)),
            field("@name", text("ground")),
            field("@width", Node::Number(2)),
            field("@height", Node::Number(2)),
            field("@offsetx", Node::Number(5)),
            field("@offsety", Node::Number(6)),
            field(
                "data",
                Node::Object(vec![
                    field("@encoding", text("csv")),
                    field("$text", text("1,2\n3,4")),
                ])
            ),
        ]))
    );
    assert_eq!(
        LayerType::Layer(full_layer()).serialize(JSON),
        Ok(Node::Object(vec![
            field("type", text("tilelayer")),
            field("id", Node::Number(7)),
            field("name", text("ground")),
            field("width", Node::Number(2)),
            field("height", Node::Number(2)),
            field("offsetx", Node::Number(5)),
            field("offsety", Node::Number(6)),
            field(
                "data",
                Node::List(vec![
                    Node::Number(1),
                    Node::Number(2),
                    Node::Number(3),
                    Node::Number(4),
                ])
            ),
        ]))
    );
}

#[test]
fn layer_without_optional_fields() {
    assert_eq!(LayerType::ImageLayer(bare_layer("sky")).serialize(XML), Ok(xml_bare("sky")));
    assert_eq!(
        LayerType::ImageLayer(bare_layer("sky")).serialize(JSON),
        Ok(json_bare("imagelayer", "sky"))
    );
}

#[test]
fn layer_with_some_optional_fields() {
    let mut layer = bare_layer("mid");
    layer.height = Some(3);
    layer.offsety = Some(0);
    assert_eq!(
        LayerType::Group(layer).serialize(JSON),
        Ok(Node::Object(vec![
            field("type", text("group")),
            field("name", text("mid")),
            field("height", Node::Number(3)),
            field("offsety", Node::Number(0)),
        ]))
    );
}

#[test]
fn xml_layers_are_grouped_by_kind() {
    assert_eq!(
        XML.transform_layers(&map().layers),
        Ok(vec![
            field("objectgroup", Node::List(vec![xml_bare("o1"), xml_bare("o2")])),
            field("layer", Node::List(vec![xml_bare("t1"), xml_bare("t2")])),
            field("imagelayer", Node::List(vec![xml_bare("i1")])),
            field("group", Node::List(vec![xml_bare("g1")])),
        ])
    );
}

#[test]
fn xml_layers_of_a_missing_kind() {
    assert_eq!(
        XML.transform_layers(&vec![LayerType::Layer(bare_layer("only"))]),
        Ok(vec![
            field("objectgroup", Node::List(Vec::new())),
            field("layer", Node::List(vec![xml_bare("only")])),
            field("imagelayer", Node::List(Vec::new())),
            field("group", Node::List(Vec::new())),
        ])
    );
}

#[test]
fn xml_layers_are_all_kept() {
    let fields = XML.transform_layers(&map().layers).unwrap();
    let mut kept = 0;
    for field in &fields {
        match &field.value {
            Node::List(items) => kept += items.len(),
            _ => panic!("not a list"),
        }
    }
    assert_eq!(kept, map().layers.len());
}

#[test]
fn json_layers_keep_document_order() {
    assert_eq!(
        JSON.transform_layers(&map().layers),
        Ok(vec![field(
            "layers",
            Node::List(vec![
                json_bare("group", "g1"),
                json_bare("tilelayer", "t1"),
                json_bare("objectgroup", "o1"),
                json_bare("tilelayer", "t2"),
                json_bare("imagelayer", "i1"),
                json_bare("objectgroup", "o2"),
            ])
        )])
    );
}

#[test]
fn json_document() {
    let node = map().serialize(JSON).unwrap();
    let fields = fields_of(&node);
    let keys: Vec<&str> = fields.iter().map(|f| f.key.as_str()).collect();
    assert_eq!(
        keys,
        vec![
            "version",
            "tiledversion",
            "orientation",
            "renderorder",
            "width",
            "height",
            "tilewidth",
            "tileheight",
            "infinite",
            "backgroundcolor",
            "nextlayerid",
            "nextobjectid",
            "editorsettings",
            "tilesets",
            "layers",
        ]
    );
    assert_eq!(fields[0].value, text("1.10"));
    assert_eq!(fields[1].value, text("1.10.2"));
    assert_eq!(fields[4].value, Node::Number(2));
    assert_eq!(fields[7].value, Node::Number(8));
    assert_eq!(fields[8].value, Node::Number(0));
    assert_eq!(fields[9].value, Node::Null);
    assert_eq!(fields[10].value, Node::Number(5));
    assert_eq!(fields[11].value, Node::Null);
    assert_eq!(fields[12].value, map().editorsettings.unwrap().serialize(JSON));
    assert_eq!(fields[13].value, Node::List(vec![tileset().serialize(JSON)]));
}

#[test]
fn xml_document() {
    let node = map().serialize(XML).unwrap();
    let fields = fields_of(&node);
    let keys: Vec<&str> = fields.iter().map(|f| f.key.as_str()).collect();
    assert_eq!(
        keys,
        vec![
            "@version",
            "@tiledversion",
            "@orientation",
            "@renderorder",
            "@width",
            "@height",
            "@tilewidth",
            "@tileheight",
            "@infinite",
            "@backgroundcolor",
            "@nextlayerid",
            "@nextobjectid",
            "editorsettings",
            "tileset",
            "objectgroup",
            "layer",
            "imagelayer",
            "group",
        ]
    );
    assert_eq!(fields[13].value, Node::List(vec![tileset().serialize(XML)]));
}

#[test]
fn shapes_agree_on_attribute_values() {
    let xml = map().serialize(XML).unwrap();
    let json = map().serialize(JSON).unwrap();
    for i in 0..12 {
        let marked = &fields_of(&xml)[i];
        let plain = &fields_of(&json)[i];
        assert_eq!(JSON.transform_name(&marked.key), plain.key);
        assert_eq!(marked.value, plain.value);
    }
}

#[test]
fn document_without_editor_settings() {
    let mut map = map();
    map.editorsettings = None;
    map.tilesets = Vec::new();
    map.layers = Vec::new();
    let node = map.serialize(JSON).unwrap();
    let fields = fields_of(&node);
    assert_eq!(fields[12], field("editorsettings", Node::Null));
    assert_eq!(fields[13], field("tilesets", Node::List(Vec::new())));
    assert_eq!(fields[14], field("layers", Node::List(Vec::new())));
}

#[test]
fn node_builders() {
    assert_eq!(Node::list(vec![Node::Null]), Node::List(vec![Node::Null]));
    assert_eq!(Node::object(Vec::new()), Node::Object(Vec::new()));
    assert_eq!(Node::text(&"a".to_string()), text("a"));
    assert_eq!(Node::number_or_null(Some(3)), Node::Number(3));
    assert_eq!(Node::number_or_null(None), Node::Null);
    assert_eq!(Node::text_or_null(&Some("a".to_string())), text("a"));
    assert_eq!(Node::text_or_null(&None), Node::Null);
    assert_eq!(Field::new("k", Node::Number(1)), field("k", Node::Number(1)));
}

#[test]
fn list_builders() {
    let mut fields = vec![field("a", Node::Null)];
    push_field(&mut fields, field("b", Node::Number(1)));
    push_number_if_some(&mut fields, "c", Some(2));
    push_number_if_some(&mut fields, "d", None);
    append_fields(&mut fields, vec![field("e", Node::Null), field("a", Node::Null)]);
    assert_eq!(
        fields,
        vec![
            field("a", Node::Null),
            field("b", Node::Number(1)),
            field("c", Node::Number(2)),
            field("e", Node::Null),
            field("a", Node::Null),
        ]
    );
    let mut nodes = Vec::new();
    push_node(&mut nodes, Node::Number(1));
    push_node(&mut nodes, Node::Null);
    assert_eq!(nodes, vec![Node::Number(1), Node::Null]);
}
