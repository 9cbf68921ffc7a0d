use carbonbond::forum::{node_templates, NewNodeTemplate};

#[test]
fn node_templates_keep_order_and_board() {
    let r = node_templates(7, vec!["{\"a\":1}".to_string(), "{}".to_string()]);
    assert_eq!(
        r,
        vec![
            NewNodeTemplate { board_id: 7, def: "{\"a\":1}".to_string() },
            NewNodeTemplate { board_id: 7, def: "{}".to_string() },
        ]
    );
    assert!(node_templates(1, vec![]).is_empty());
}
