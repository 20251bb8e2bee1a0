use dygma_api::defy::{DefyKeymap, ParseKeymapError};
use dygma_api::wire::join_u16s;

const KEYMAP_DATA: &str = "41 30 31 32 33 34 0 0 0 0 35 36 37 38 39 0 43 20 26 8 21 23 0 0 0 0 28 24 12 18 19 0 57 4 22 7 9 10 17152 0 0 0 11 13 14 15 51 52 53980 29 27 6 25 5 0 0 0 0 17 16 54 55 56 0 53853 17452 44 49467 49209 226 227 0 0 231 76 49209 52028 44 49162 230 41 0 0 0 0 0 0 0 0 0 0 0 0 0 0 0 43 85 95 96 97 87 0 0 0 0 75 74 82 77 0 0 0 84 92 93 94 86 83 0 0 0 78 80 81 79 70 0 0 46 89 90 91 99 0 0 0 0 0 0 0 0 0 0 0 0 98 65535 65535 65535 0 0 0 0 0 65535 65535 65535 65535 0 0 58 59 60 61 62 63 65535 65535 64 65 66 67 68 69 0 0 0 0 22710 22709 23785 0 65535 65535 0 0 23663 0 0 65535 0 0 0 22713 22711 22733 23785 0 65535 65535 0 0 23664 20866 20865 0 0 0 0 0 0 0 19682 65535 65535 65535 65535 0 0 0 0 0 0 0 65535 0 0 0 0 0 0 0 0 0 0 0 0 0 0 0 0 0 0 0 0 0 65535 65535 0 0 0 0 0 0 0 0 53 2079 2080 2081 2101 0 65535 65535 0 2083 2095 2096 2093 2094 0 0 2078 56 2102 2103 2082 0 65535 65535 0 2084 2086 2087 45 46 0 0 0 0 49 2097 0 65535 65535 65535 65535 0 47 48 0 0 0 0 0 0 0 0 0 0 0 0 0 0 0 65535 0 0 0 65535 65535 65535 65535 65535 65535 65535 65535 65535 65535 65535 65535 65535 65535 65535 65535 65535 65535 65535 65535 65535 65535 65535 65535 65535 65535 65535 65535 65535 65535 65535 65535 65535 65535 65535 65535 65535 65535 65535 65535 65535 65535 65535 65535 65535 65535 65535 65535 65535 65535 65535 65535 65535 65535 65535 65535 65535 65535 65535 65535 65535 65535 65535 65535 65535 65535 65535 65535 65535 65535 65535 65535 65535 65535 65535 65535 65535 65535 65535 65535 65535 65535 65535 65535 65535 65535 65535 65535 65535 65535 65535 65535 65535 65535 65535 65535 65535 65535 65535 65535 65535 65535 65535 65535 65535 65535 65535 65535 65535 65535 65535 65535 65535 65535 65535 65535 65535 65535 65535 65535 65535 65535 65535 65535 65535 65535 65535 65535 65535 65535 65535 65535 65535 65535 65535 65535 65535 65535 65535 65535 65535 65535 65535 65535 65535 65535 65535 65535 65535 65535 65535 65535 65535 65535 65535 65535 65535 65535 65535 65535 65535 65535 65535 65535 65535 65535 65535 65535 65535 65535 65535 65535 65535 65535 65535 65535 65535 65535 65535 65535 65535 65535 65535 65535 65535 65535 65535 65535 65535 65535 65535 65535 65535 65535 65535 65535 65535 65535 65535 65535 65535 65535 65535 65535 65535 65535 65535 65535 65535 65535 65535 65535 65535 65535 65535 65535 65535 65535 65535 65535 65535 65535 65535 65535 65535 65535 65535 65535 65535 65535 65535 65535 65535 65535 65535 65535 65535 65535 65535 65535 65535 65535 65535 65535 65535 65535 65535 65535 65535 65535 65535 65535 65535 65535 65535 65535 65535 65535 65535 65535 65535 65535 65535 65535 65535 65535 65535 65535 65535 65535 65535 65535 65535 65535 65535 65535 65535 65535 65535 65535 65535 65535 65535 65535 65535 65535 65535 65535 65535 65535 65535 65535 65535 65535 65535 65535 65535 65535 65535 65535 65535 65535 65535 65535 65535 65535 65535 65535 65535 65535 65535 65535 65535 65535 65535 65535 65535 65535 65535 65535 65535 65535 65535 65535 65535 65535 65535 65535 65535 65535 65535 65535 65535 65535 65535 65535 65535 65535 65535 65535 65535 65535 65535 65535 65535 65535 65535 65535 65535 65535 65535 65535 65535 65535 65535 65535 65535 65535 65535 65535 65535 65535 65535 65535 65535 65535 65535 65535 65535 65535 65535 65535 65535 65535 65535 65535 65535 65535 65535 65535 65535 65535 65535 65535 65535 65535 65535 65535 65535 65535 65535 65535 65535 65535 65535 65535 65535 65535 65535 65535 65535 65535 65535 65535 65535 65535 65535 65535 65535 65535 65535 65535 65535 65535 65535 65535 65535 65535 65535 65535 65535 65535 65535 65535 65535 65535 65535 65535 65535 65535 65535 65535 65535 65535 65535 65535 65535 65535 65535 65535 65535 65535 65535 65535 65535 65535 65535 65535 65535 65535 65535 65535 65535 65535 65535 65535 65535 65535 65535 65535 65535 65535 65535 65535 65535 65535 65535 65535 65535 65535 65535 65535 65535 65535 65535 65535 65535 65535 65535 65535 ";

#[test]
fn keymap_round_trips_from_str() {
    let mut layer_data: Vec<u16> = KEYMAP_DATA
        .split(' ')
        .filter(|t| !t.is_empty())
        .map(|t| t.parse().unwrap())
        .collect();
    assert_eq!(layer_data.len(), 800);

    let keymap = DefyKeymap::parse(KEYMAP_DATA).unwrap();
    assert_eq!(keymap.0.len(), 10);

    let mut res: Vec<u16> = Vec::new();
    for (i, layer) in keymap.0.iter().enumerate() {
        let data = layer.to_keymap_data();
        for (j, key) in data.into_iter().enumerate() {
            if key.is_none() {
                layer_data[i * 80 + j] = 0;
            }
            res.push(key.unwrap_or_default());
        }
    }

    assert_eq!(res, layer_data);
}

#[test]
fn keymap_rejects_length_not_multiple_of_80() {
    let data: Vec<String> = (0..81).map(|_| "1".to_string()).collect();
    let text = data.join(" ");
    assert_eq!(DefyKeymap::parse(&text), Err(ParseKeymapError));
}

#[test]
fn keymap_rejects_garbage() {
    assert_eq!(DefyKeymap::parse("1 2 three"), Err(ParseKeymapError));
    assert_eq!(DefyKeymap::parse("99999"), Err(ParseKeymapError));
}

#[test]
fn keymap_accepts_empty_input() {
    let km = DefyKeymap::parse("").unwrap();
    assert_eq!(km.0.len(), 0);
}

#[test]
fn keymap_serialize_fills_placeholder() {
    let keymap = DefyKeymap::parse(KEYMAP_DATA).unwrap();
    let wire = keymap.serialize(0).unwrap();
    assert_eq!(wire.len(), 800);
    // padding offsets of the first layer become the placeholder
    for o in [7usize, 8, 23, 24, 39, 40, 54, 55, 56, 57] {
        assert_eq!(wire[o], 0);
    }
    // a covered offset keeps its code
    assert_eq!(wire[0], 41);
    let _ = join_u16s(&wire);
}

#[test]
fn keymap_serialize_needs_ten_layers() {
    let km = DefyKeymap::parse("").unwrap();
    assert!(km.serialize(0).is_err());
    assert!(km.to_keymap_custom_data().is_err());
}

#[test]
fn keymap_accepts_tab_separated_codes() {
    let mut text = String::new();
    for _ in 0..80 {
        text.push_str("4\t");
    }
    let km = DefyKeymap::parse(&text).unwrap();
    assert_eq!(km.0.len(), 1);
}

#[test]
fn keymap_errors_describe_themselves() {
    let err = DefyKeymap::parse("1 2 3").unwrap_err();
    assert!(err.message().contains("multiple of 80"));
    let km = DefyKeymap::parse("").unwrap();
    let err = km.to_keymap_custom_data().unwrap_err();
    assert!(err.message().contains("10 layers"));
}
