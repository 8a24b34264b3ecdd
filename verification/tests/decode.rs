use kle_serial::{Color, Error, Json, Key, KeyIterator, Keyboard, Legend, Member, Metadata, Real};

#[derive(Clone, Copy, Debug, PartialEq)]
struct Unit(f64);

impl Real for Unit {
    fn spec_from_integer(n: i64) -> Self {
        Unit(n as f64)
    }

    fn spec_plus(self, rhs: Self) -> Self {
        Unit(self.0 + rhs.0)
    }

    fn spec_larger(self, rhs: Self) -> Self {
        Unit(self.0.max(rhs.0))
    }

    fn from_integer(n: i64) -> Self {
        Unit(n as f64)
    }

    fn plus(self, rhs: Self) -> Self {
        Unit(self.0 + rhs.0)
    }

    fn larger(self, rhs: Self) -> Self {
        Unit(self.0.max(rhs.0))
    }
}

fn tree(value: &serde_json::Value) -> Json<Unit> {
    match value {
        serde_json::Value::Null => Json::Null,
        serde_json::Value::Bool(b) => Json::Bool(*b),
        serde_json::Value::Number(n) => match n.as_i64() {
            Some(i) => Json::Integer(i),
            None => Json::Real(Unit(n.as_f64().unwrap())),
        },
        serde_json::Value::String(s) => Json::Text(s.clone()),
        serde_json::Value::Array(items) => Json::Array(items.iter().map(tree).collect()),
        serde_json::Value::Object(members) => Json::Object(
            members
                .iter()
                .map(|(key, value)| Member { key: key.clone(), value: tree(value) })
                .collect(),
        ),
    }
}

fn parse(text: &str) -> Json<Unit> {
    tree(&serde_json::from_str::<serde_json::Value>(text).unwrap())
}

fn keyboard(text: &str) -> Result<Keyboard<Unit>, Error> {
    Keyboard::deserialize(&parse(text))
}

fn keys(text: &str) -> Result<Vec<Key<Unit>>, Error> {
    let doc = parse(text);
    let mut iterator = KeyIterator::deserialize(&doc)?;
    let mut keys = Vec::new();
    while let Some(key) = iterator.next() {
        keys.push(key);
    }
    Ok(keys)
}

fn close(a: Unit, b: f64) -> bool {
    (a.0 - b).abs() < 1e-9
}

#[test]
fn test_legend_default() {
    let legend = Legend::default();

    assert_eq!(legend.text, "");
    assert_eq!(legend.size, 3);
    assert_eq!(legend.color, Color::new(0, 0, 0, 255));
}

#[test]
fn test_key_default() {
    let key = Key::<Unit>::default();

    for leg in key.legends {
        assert!(leg.is_none());
    }
    assert_eq!(key.color, Color::new(204, 204, 204, 255));
    assert!(close(key.x, 0.0));
    assert!(close(key.y, 0.0));
    assert!(close(key.width, 1.0));
    assert!(close(key.height, 1.0));
    assert!(close(key.x2, 0.0));
    assert!(close(key.y2, 0.0));
    assert!(close(key.width2, 1.0));
    assert!(close(key.height2, 1.0));
    assert!(close(key.rotation, 0.0));
    assert!(close(key.rx, 0.0));
    assert!(close(key.ry, 0.0));
    assert_eq!(key.profile, "");
    assert_eq!(key.key_switch.mount, "");
    assert_eq!(key.key_switch.brand, "");
    assert_eq!(key.key_switch.typ, "");
    assert!(!key.ghosted);
    assert!(!key.stepped);
    assert!(!key.homing);
    assert!(!key.decal);
}

#[test]
fn test_metadata_default() {
    let meta = Metadata::default();

    assert_eq!(meta.background_color, Color::new(238, 238, 238, 255));
    assert_eq!(meta.background.name, "");
    assert_eq!(meta.background.style, "");
    assert_eq!(meta.radii, "");
    assert_eq!(meta.name, "");
    assert_eq!(meta.author, "");
    assert_eq!(meta.key_switch.mount, "");
    assert_eq!(meta.key_switch.brand, "");
    assert_eq!(meta.key_switch.typ, "");
    assert!(!meta.plate_mount);
    assert!(!meta.pcb_mount);
    assert_eq!(meta.notes, "");
}

#[test]
fn test_keyboard_deserialize() {
    let kb = keyboard(
        r#"[
            {
                "name": "test",
                "unknown": "key"
            },
            [
                {
                    "a": 4,
                    "unknown2": "key"
                },
                "A",
                "B",
                "C"
            ],
            [
                "D"
            ]
        ]"#,
    )
    .unwrap();
    assert_eq!(kb.metadata.name, "test");
    assert_eq!(kb.keys.len(), 4);

    let kb = keyboard(r#"[["A"]]"#).unwrap();
    assert_eq!(kb.metadata.name, "");
    assert_eq!(kb.keys.len(), 1);

    let kb = keyboard(r#"[{"notes": "'tis a test"}]"#).unwrap();
    assert_eq!(kb.metadata.notes, "'tis a test");
    assert_eq!(kb.keys.len(), 0);

    assert!(keyboard("null").is_err());
}

#[test]
fn test_key_iterator_deserialize() {
    let keys1 = keys(
        r#"[
            {
                "name": "test",
                "unknown": "key"
            },
            [
                {
                    "a": 4,
                    "unknown2": "key"
                },
                "A",
                "B",
                "C"
            ],
            [
                "D"
            ]
        ]"#,
    )
    .unwrap();

    assert_eq!(keys1.len(), 4);
    assert_eq!(keys1[2].legends[0].as_ref().unwrap().text, "C");

    let keys2 = keys(r#"[["A"]]"#).unwrap();
    assert_eq!(keys2.len(), 1);
    assert_eq!(keys2[0].legends[0].as_ref().unwrap().text, "A");

    let keys3 = keys(r#"[{"notes": "'tis a test"}]"#).unwrap();
    assert_eq!(keys3.len(), 0);

    assert!(keys("null").is_err());
}

fn legend_text(key: &Key<Unit>, slot: usize) -> Option<&str> {
    key.legends[slot].as_ref().map(|legend| legend.text.as_str())
}

fn legend_size(key: &Key<Unit>, slot: usize) -> usize {
    key.legends[slot].as_ref().unwrap().size
}

fn legend_color(key: &Key<Unit>, slot: usize) -> Color {
    key.legends[slot].as_ref().unwrap().color
}

#[test]
fn legends_land_on_their_slots() {
    let keys = keys("[[\"!\\n1\\n\u{b9}\\n\u{a1}\"]]").unwrap();
    assert_eq!(keys.len(), 1);
    let key = &keys[0];
    assert_eq!(key.legends.len(), 12);
    assert_eq!(legend_text(key, 0), Some("!"));
    assert_eq!(legend_text(key, 6), Some("1"));
    assert_eq!(legend_text(key, 2), Some("\u{b9}"));
    assert_eq!(legend_text(key, 8), Some("\u{a1}"));
    assert_eq!(legend_size(key, 0), 3);
    assert_eq!(legend_size(key, 6), 3);
    for slot in [1, 3, 4, 5, 7, 9, 10, 11] {
        assert!(key.legends[slot].is_none());
    }
    assert_eq!(legend_color(key, 0), Color::new(0, 0, 0, 255));
}

#[test]
fn font_size_applies_to_the_key() {
    let kb = keyboard("[{\"name\": \"example\"}, [{\"f\": 4}, \"!\\n1\\n\u{b9}\\n\u{a1}\"]]").unwrap();
    assert_eq!(kb.metadata.name, "example");
    assert_eq!(kb.keys.len(), 1);
    let legend = kb.keys[0].legends[0].as_ref().unwrap();
    assert_eq!(legend.text, "!");
    assert_eq!(legend.size, 4);
    assert!(kb.keys[0].legends[1].is_none());
}

#[test]
fn empty_lines_make_no_legend() {
    let keys = keys(r#"[["\n\n\n\nfront", ""]]"#).unwrap();
    assert_eq!(keys.len(), 2);
    assert_eq!(legend_text(&keys[0], 10), Some("front"));
    for slot in 0..12 {
        if slot != 10 {
            assert!(keys[0].legends[slot].is_none());
        }
        assert!(keys[1].legends[slot].is_none());
    }
}

#[test]
fn lines_past_the_twelfth_are_dropped() {
    let keys = keys(r#"[[{"a": 0}, "0\n1\n2\n3\n4\n5\n6\n7\n8\n9\n10\n11\n12\n13"]]"#).unwrap();
    let key = &keys[0];
    let slots = [0, 6, 2, 8, 9, 11, 3, 5, 1, 4, 7, 10];
    for (line, slot) in slots.iter().enumerate() {
        assert_eq!(legend_text(key, *slot), Some(format!("{}", line).as_str()));
    }
}

#[test]
fn alignment_drops_lines_without_a_slot() {
    let keys = keys(r#"[[{"a": 7}, "a\nb\nc\nd\ne\nf\ng\nh\ni\nj\nk\nl"]]"#).unwrap();
    let key = &keys[0];
    assert_eq!(legend_text(key, 4), Some("a"));
    assert_eq!(legend_text(key, 10), Some("e"));
    for slot in [0, 1, 2, 3, 5, 6, 7, 8, 9, 11] {
        assert!(key.legends[slot].is_none());
    }
}

#[test]
fn malformed_alignment_is_passed_over() {
    let keys = keys(r#"[[{"a": 5}, "x", {"a": 8}, "x", {"a": -1}, "x", {"a": "0"}, "x", {"a": 0.5}, "x"]]"#)
        .unwrap();
    assert_eq!(keys.len(), 5);
    for key in &keys {
        assert_eq!(legend_text(key, 1), Some("x"));
        assert!(key.legends[0].is_none());
    }
}

#[test]
fn font_sizes_are_clamped() {
    let keys = keys(r#"[[{"f": 0}, "a", {"f": 12}, "a", {"f": -3}, "a", {"f": 9}, "a", {"f": 1}, "a"]]"#)
        .unwrap();
    let sizes: Vec<usize> = keys.iter().map(|key| legend_size(key, 0)).collect();
    assert_eq!(sizes, vec![1, 9, 1, 9, 1]);
}

#[test]
fn second_font_size_spares_the_first_slot() {
    let keys = keys(r#"[[{"a": 0, "f": 5, "f2": 2}, "0\n1\n2\n3\n4\n5\n6\n7\n8\n9\n10\n11"]]"#).unwrap();
    let key = &keys[0];
    assert_eq!(legend_size(key, 0), 5);
    for slot in 1..12 {
        assert_eq!(legend_size(key, slot), 2);
    }
}

#[test]
fn font_size_list_follows_the_alignment() {
    let keys = keys(
        r#"[[{"f": 3, "f2": 4, "fa": [9, 8, 7, "x", 0, 20]}, "0\n1\n2\n3\n4\n5\n6\n7\n8\n9\n10\n11"]]"#,
    )
    .unwrap();
    let key = &keys[0];
    // Under alignment 4 the lines 0, 1, 2 and 4 land on the slots 0, 6, 2 and 10.
    assert_eq!(legend_size(key, 0), 9);
    assert_eq!(legend_size(key, 6), 8);
    assert_eq!(legend_size(key, 2), 7);
    assert_eq!(legend_size(key, 10), 1);
    // Line 3 has no size of its own, and line 5 has no slot.
    assert_eq!(legend_size(key, 8), 4);
    assert_eq!(legend_size(key, 3), 4);
    assert!(key.legends[9].is_none());
    assert!(key.legends[11].is_none());
}

#[test]
fn font_directives_persist_apart() {
    let keys = keys(r#"[[{"fa": [6, 6]}, "a\nb\nc", {"f": 2}, "a\nb\nc", {"f2": 7}, "a\nb\nc", {"fa": []}, "a\nb\nc"]]"#)
        .unwrap();
    let sizes: Vec<Vec<usize>> = keys
        .iter()
        .map(|key| vec![legend_size(key, 0), legend_size(key, 6), legend_size(key, 2)])
        .collect();
    assert_eq!(sizes, vec![vec![6, 6, 3], vec![6, 6, 2], vec![6, 6, 7], vec![2, 7, 7]]);
}

#[test]
fn legend_colors_go_by_slot() {
    let keys = keys(
        r##"[[{"a": 0, "t": "#ff0000\n#00ff00\n\n#00f"}, "0\n1\n2\n3\n4\n5\n6\n7\n8\n9\n10\n11", {"t": "bad\n#123456"}, "0\n1\n2\n\n\n\n\n\n8", {"t": "#0a0B0c"}, "0\n1\n2"]]"##,
    )
    .unwrap();
    let red = Color::new(255, 0, 0, 255);
    let key = &keys[0];
    assert_eq!(legend_color(key, 0), red);
    assert_eq!(legend_color(key, 1), Color::new(0, 255, 0, 255));
    assert_eq!(legend_color(key, 2), red);
    assert_eq!(legend_color(key, 3), Color::new(0, 0, 255, 255));
    for slot in 4..12 {
        assert_eq!(legend_color(key, slot), red);
    }
    // A first line that is no colour leaves the colour for all legends as it
    // was; the colours of single slots are those of the new list alone.
    let key = &keys[1];
    assert_eq!(legend_color(key, 0), red);
    assert_eq!(legend_color(key, 1), Color::new(0x12, 0x34, 0x56, 255));
    assert_eq!(legend_color(key, 2), red);
    assert_eq!(legend_color(key, 6), red);
    let key = &keys[2];
    for slot in [0, 6, 2] {
        assert_eq!(legend_color(key, slot), Color::new(10, 11, 12, 255));
    }
}

#[test]
fn key_color_persists() {
    let keys = keys(r##"[["a", {"c": "#102030"}, "b", "c"], ["d", {"c": "nonsense"}, "e", {"c": "#fff"}, "f"]]"##)
        .unwrap();
    let colors: Vec<Color> = keys.iter().map(|key| key.color).collect();
    let set = Color::new(0x10, 0x20, 0x30, 255);
    assert_eq!(
        colors,
        vec![Color::new(204, 204, 204, 255), set, set, set, set, Color::new(255, 255, 255, 255)]
    );
}

#[test]
fn cursor_moves_along_rows() {
    let keys = keys(r#"[["a", "b", {"x": 0.5}, "c"], [{"y": 0.25}, "d", {"x": -1}, "e"], [], ["f"]]"#).unwrap();
    let places: Vec<(f64, f64)> = keys.iter().map(|key| (key.x.0, key.y.0)).collect();
    assert_eq!(
        places,
        vec![(0.0, 0.0), (1.0, 0.0), (2.5, 0.0), (0.0, 1.25), (0.0, 1.25), (0.0, 3.25)]
    );
}

#[test]
fn width_and_height_persist() {
    let keys = keys(r#"[[{"w": 1.5, "h": 2}, "a", "b"], ["c", {"w": 1}, "d"]]"#).unwrap();
    let sizes: Vec<(f64, f64, f64, f64)> =
        keys.iter().map(|key| (key.x.0, key.width.0, key.height.0, key.width2.0)).collect();
    assert_eq!(
        sizes,
        vec![(0.0, 1.5, 2.0, 1.5), (1.5, 1.5, 2.0, 1.5), (0.0, 1.5, 2.0, 1.5), (1.5, 1.0, 2.0, 1.0)]
    );
    assert!(close(keys[3].height2, 2.0));
}

#[test]
fn second_part_holds_for_one_key() {
    let keys = keys(
        r#"[[{"w": 1.25, "w2": 1.75, "x2": -0.25, "y2": 0.5, "h2": 3}, "a", "b", {"h2": 2}, {"x": 1}, "c", "d"]]"#,
    )
    .unwrap();
    let first = &keys[0];
    assert!(close(first.x2, -0.25));
    assert!(close(first.y2, 0.5));
    assert!(close(first.width2, 1.75));
    assert!(close(first.height2, 3.0));
    let second = &keys[1];
    assert!(close(second.x2, 0.0));
    assert!(close(second.y2, 0.0));
    assert!(close(second.width2, 1.25));
    assert!(close(second.height2, 1.0));
    // The first key reaches to -0.25 + 1.75 = 1.5, which is more than its width.
    assert!(close(second.x, 1.5));
    let third = &keys[2];
    assert!(close(third.x, 3.75));
    assert!(close(third.height2, 2.0));
    assert!(close(third.width2, 1.25));
    let fourth = &keys[3];
    assert!(close(fourth.x, 5.0));
    assert!(close(fourth.height2, 1.0));
}

#[test]
fn rotation_moves_the_origin() {
    let keys = keys(
        r#"[["a"], [{"r": 15, "rx": 3, "ry": 2, "x": 0.5}, "b", "c"], ["d"], [{"r": 30}, "e"], [{"ry": 5, "y": 1}, "f"]]"#,
    )
    .unwrap();
    let got: Vec<(f64, f64, f64, f64, f64)> =
        keys.iter().map(|key| (key.x.0, key.y.0, key.rotation.0, key.rx.0, key.ry.0)).collect();
    assert_eq!(
        got,
        vec![
            (0.0, 0.0, 0.0, 0.0, 0.0),
            (3.5, 2.0, 15.0, 3.0, 2.0),
            (4.5, 2.0, 15.0, 3.0, 2.0),
            (3.0, 3.0, 15.0, 3.0, 2.0),
            (3.0, 2.0, 30.0, 3.0, 2.0),
            (3.0, 6.0, 30.0, 3.0, 5.0),
        ]
    );
}

#[test]
fn flags_and_texts_persist() {
    let keys = keys(
        r#"[[{"g": true, "l": true, "n": true, "d": true, "p": "DCS R1", "sm": "cherry", "sb": "gateron", "st": "red"}, "a", "b"], ["c", {"g": false, "p": "SA", "st": 7, "n": "yes"}, "d"]]"#,
    )
    .unwrap();
    for key in &keys[0..3] {
        assert!(key.ghosted && key.stepped && key.homing && key.decal);
        assert_eq!(key.profile, "DCS R1");
        assert_eq!(key.key_switch.mount, "cherry");
        assert_eq!(key.key_switch.brand, "gateron");
        assert_eq!(key.key_switch.typ, "red");
    }
    let last = &keys[3];
    assert!(!last.ghosted && last.stepped && last.homing && last.decal);
    assert_eq!(last.profile, "SA");
    assert_eq!(last.key_switch.typ, "red");
}

#[test]
fn later_member_replaces_earlier() {
    let doc: Json<Unit> = Json::Array(vec![Json::Array(vec![
        Json::Object(vec![
            Member { key: "p".to_string(), value: Json::Text("first".to_string()) },
            Member { key: "p".to_string(), value: Json::Text("second".to_string()) },
        ]),
        Json::Text("a".to_string()),
    ])]);
    let kb = Keyboard::deserialize(&doc).unwrap();
    assert_eq!(kb.keys[0].profile, "second");
}

#[test]
fn other_tokens_are_passed_over() {
    let keys = keys(r#"[[1, null, true, ["a"], 2.5, "a", {"zz": 1}, "b"]]"#).unwrap();
    assert_eq!(keys.len(), 2);
    assert!(close(keys[1].x, 1.0));
}

#[test]
fn metadata_is_read() {
    let kb = keyboard(
        r##"[{"backcolor": "#010203", "background": {"name": "Carbon", "style": "url()"}, "radii": "6px", "name": "n", "author": "a", "switchMount": "alps", "switchBrand": "matias", "switchType": "quiet", "plate": true, "pcb": true, "notes": "x"}, ["a"]]"##,
    )
    .unwrap();
    let meta = &kb.metadata;
    assert_eq!(meta.background_color, Color::new(1, 2, 3, 255));
    assert_eq!(meta.background.name, "Carbon");
    assert_eq!(meta.background.style, "url()");
    assert_eq!(meta.radii, "6px");
    assert_eq!(meta.name, "n");
    assert_eq!(meta.author, "a");
    assert_eq!(meta.key_switch.mount, "alps");
    assert_eq!(meta.key_switch.brand, "matias");
    assert_eq!(meta.key_switch.typ, "quiet");
    assert!(meta.plate_mount);
    assert!(meta.pcb_mount);
    assert_eq!(meta.notes, "x");
    assert_eq!(kb.keys.len(), 1);
}

#[test]
fn malformed_metadata_is_defaulted() {
    let kb = keyboard(r#"[{"backcolor": "red", "background": "none", "name": 3, "plate": "yes"}]"#).unwrap();
    assert_eq!(kb.metadata, Metadata::default());
    let kb = keyboard("[]").unwrap();
    assert_eq!(kb.metadata, Metadata::default());
    assert_eq!(kb.keys.len(), 0);
}

#[test]
fn structural_errors_name_the_element() {
    assert_eq!(keyboard("null").err(), Some(Error::NotAnArray));
    assert_eq!(keyboard("3").err(), Some(Error::NotAnArray));
    assert_eq!(keyboard(r#"{"name": "x"}"#).err(), Some(Error::NotAnArray));
    assert_eq!(keyboard(r#"["a"]"#).err(), Some(Error::RowNotAnArray { index: 0 }));
    assert_eq!(keyboard(r#"[{}, ["a"], {}, 4]"#).err(), Some(Error::RowNotAnArray { index: 2 }));
    assert_eq!(keyboard(r#"[["a"], ["b"], null]"#).err(), Some(Error::RowNotAnArray { index: 2 }));
    assert_eq!(keys(r#"[["a"], ["b"], null]"#).err(), Some(Error::RowNotAnArray { index: 2 }));
    assert_eq!(keys("true").err(), Some(Error::NotAnArray));
}

#[test]
fn decoding_twice_gives_the_same() {
    let doc = parse(
        r##"[{"name": "twice"}, [{"c": "#123", "t": "#456\n#789", "a": 5, "fa": [1, 2]}, "a\nb", {"w": 2, "x2": 1}, "c"], [{"r": 10, "rx": 1}, "d"]]"##,
    );
    let first = Keyboard::deserialize(&doc).unwrap();
    let second = Keyboard::deserialize(&doc).unwrap();
    assert_eq!(first, second);
    let mut iterator = KeyIterator::deserialize(&doc).unwrap();
    let mut other = KeyIterator::deserialize(&doc).unwrap();
    for key in &first.keys {
        assert_eq!(iterator.next().as_ref(), Some(key));
    }
    assert!(iterator.next().is_none());
    assert!(iterator.next().is_none());
    assert_eq!(other.next().as_ref(), Some(&first.keys[0]));
}

#[test]
fn every_key_has_twelve_slots_and_sizes_in_range() {
    let keys = keys(
        r#"[[{"f": 100, "f2": -5, "fa": [0, 50, 3, -1]}, "a\nb\nc\nd\ne\nf\ng\nh\ni\nj\nk\nl\nm", "", {"a": 3}, "a\nb\nc\nd\ne\nf"]]"#,
    )
    .unwrap();
    assert_eq!(keys.len(), 3);
    for key in &keys {
        assert_eq!(key.legends.len(), 12);
        for legend in key.legends.iter().flatten() {
            assert!(1 <= legend.size && legend.size <= 9);
        }
    }
}

#[test]
fn copies_are_equal() {
    let doc = parse(r##"[{"author": "me"}, ["a", {"w": 2, "t": "#111\n#222"}, "b\nc"], ["d"]]"##);
    let keyboard = Keyboard::deserialize(&doc).unwrap();
    assert_eq!(keyboard.clone(), keyboard);
    assert_eq!(keyboard.keys[1].clone(), keyboard.keys[1]);
    assert_eq!(keyboard.metadata.clone(), keyboard.metadata);
    let mut iterator = KeyIterator::deserialize(&doc).unwrap();
    assert_eq!(iterator.next().as_ref(), Some(&keyboard.keys[0]));
    let mut copy = iterator.clone();
    assert_eq!(iterator.next().as_ref(), Some(&keyboard.keys[1]));
    assert_eq!(iterator.next().as_ref(), Some(&keyboard.keys[2]));
    assert_eq!(iterator.next(), None);
    assert_eq!(copy.next().as_ref(), Some(&keyboard.keys[1]));
    assert_eq!(copy.next().as_ref(), Some(&keyboard.keys[2]));
    assert_eq!(copy.next(), None);
}
