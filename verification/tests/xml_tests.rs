use velodyne::xmlnav::{consume_end, consume_start, get_node_val, XmlError, XmlEvent, XmlStream};

fn leaf(name: &str, val: &str) -> Vec<XmlEvent> {
    vec![
        XmlEvent::StartElement(name.to_string()),
        XmlEvent::Characters(val.to_string()),
        XmlEvent::EndElement(name.to_string()),
    ]
}

#[test]
fn node_value_is_read_between_its_tags() {
    let mut events = vec![XmlEvent::StartElement("DB".to_string())];
    events.extend(leaf("distLSB_", "0.2"));
    events.push(XmlEvent::EndElement("DB".to_string()));
    events.push(XmlEvent::EndDocument);
    let mut stream = XmlStream::new(events);
    assert!(consume_start(&mut stream, &"DB".to_string()).is_ok());
    let val = get_node_val(&mut stream, &"distLSB_".to_string()).unwrap();
    assert_eq!(val, "0.2");
    assert!(consume_end(&mut stream, &"DB".to_string()).is_ok());
}

#[test]
fn wrong_element_name_is_an_error() {
    let mut stream = XmlStream::new(leaf("px", "1"));
    assert_eq!(
        consume_start(&mut stream, &"item".to_string()),
        Err(XmlError::ExpectedStart)
    );
}

#[test]
fn end_tag_expected_where_start_found() {
    let mut stream = XmlStream::new(leaf("px", "1"));
    assert_eq!(consume_end(&mut stream, &"px".to_string()), Err(XmlError::ExpectedEnd));
}

#[test]
fn missing_characters_is_an_error() {
    let events = vec![
        XmlEvent::StartElement("count".to_string()),
        XmlEvent::EndElement("count".to_string()),
    ];
    let mut stream = XmlStream::new(events);
    assert_eq!(
        get_node_val(&mut stream, &"count".to_string()),
        Err(XmlError::ExpectedCharacters)
    );
}

#[test]
fn exhausted_stream_is_an_error() {
    let mut stream = XmlStream::new(Vec::new());
    assert_eq!(
        consume_start(&mut stream, &"DB".to_string()),
        Err(XmlError::ExpectedStart)
    );
}

#[test]
fn sixty_four_items_read_in_sequence() {
    let mut events = Vec::new();
    events.extend(leaf("count", "64"));
    events.extend(leaf("item_version", "0"));
    for i in 0..64 {
        events.extend(leaf("item", &i.to_string()));
    }
    let mut stream = XmlStream::new(events);
    assert_eq!(get_node_val(&mut stream, &"count".to_string()).unwrap(), "64");
    assert_eq!(get_node_val(&mut stream, &"item_version".to_string()).unwrap(), "0");
    for i in 0..64 {
        let v = get_node_val(&mut stream, &"item".to_string()).unwrap();
        assert_eq!(v.parse::<usize>().unwrap(), i);
    }
}
