use mercury_protocol::meta::{
    iter_first_attrval_by_name, iter_first_attrval_by_path, AttributeValue, HashWebLink, MetaAttr,
};

#[test]
fn test_metadata() {
    let spoon = "There is no Rust";
    let answer = 42;
    let pi = 3.14159265358979_f64;

    let linkhash = "Far far away in another storage network".to_owned();
    let famous = vec![
        AttributeValue::Text(spoon.to_owned()),
        AttributeValue::Integer(answer),
        AttributeValue::FloatBits(pi.to_bits()),
    ];
    let color = vec![
        MetaAttr::new("red", AttributeValue::Integer(90)),
        MetaAttr::new("green", AttributeValue::Integer(60)),
        MetaAttr::new("blue", AttributeValue::Integer(90)),
    ];
    let attrs = vec![
        MetaAttr::new("works", AttributeValue::Boolean(true)),
        MetaAttr::new("timestamp", AttributeValue::Timestamp(1_234_567_890)),
        MetaAttr::new(
            "link",
            AttributeValue::Link(HashWebLink::new("magnet", linkhash.as_str())),
        ),
        MetaAttr::new("famous", AttributeValue::Array(famous)),
        MetaAttr::new("color", AttributeValue::Object(color)),
    ];
    let _blob = b"1234567890abcdef".to_vec();
    let _hash = b"qwerty".to_vec();

    {
        // Test simple bool attribute
        let works_attrval = iter_first_attrval_by_name(attrs.as_slice(), "works");
        match works_attrval.unwrap() {
            AttributeValue::Boolean(v) => assert!(*v),
            _ => panic!("Unexpected attribute type"),
        };
    }

    {
        // Test array attribute
        let fame_attrval = iter_first_attrval_by_name(attrs.as_slice(), "famous");
        match fame_attrval.unwrap() {
            AttributeValue::Array(arr) => {
                assert_eq!(arr.len(), 3);
                match &arr[0] {
                    AttributeValue::Text(val) => assert_eq!(val, spoon),
                    _ => panic!("Unexpected attribute type"),
                };
                match &arr[1] {
                    AttributeValue::Integer(val) => assert_eq!(*val, answer),
                    _ => panic!("Unexpected attribute type"),
                };
                match &arr[2] {
                    AttributeValue::FloatBits(val) => assert_eq!(f64::from_bits(*val), pi),
                    _ => panic!("Unexpected attribute type"),
                }
            }
            _ => panic!("Unexpected attribute type"),
        };
    }

    {
        // Test color object attribute
        let color_red_attrval = iter_first_attrval_by_path(attrs.as_slice(), &["color", "red"]);
        match color_red_attrval.unwrap() {
            AttributeValue::Integer(val) => assert_eq!(*val, 90),
            _ => panic!("Unexpected attribute type"),
        };

        let color_green_attrval =
            iter_first_attrval_by_path(attrs.as_slice(), &["color", "green"]);
        match color_green_attrval.unwrap() {
            AttributeValue::Integer(val) => assert_eq!(*val, 60),
            _ => panic!("Unexpected attribute type"),
        };

        let color_purple_attrval =
            iter_first_attrval_by_path(attrs.as_slice(), &["color", "purple"]);
        assert!(color_purple_attrval.is_none());
    }
}
