use lgn_worker::types::node::{node_type, NodeError, NodeType};

#[test]
fn a_list_of_seventeen_items_is_a_branch() {
    let mut node = vec![0xd1u8];
    node.extend(std::iter::repeat(0x80u8).take(17));
    assert_eq!(node_type(&node), Ok(NodeType::Branch));
}

#[test]
fn a_branch_with_hashed_children_is_a_branch() {
    // sixteen 32-byte children and an empty value: 16 * 33 + 1 = 529 bytes of payload
    let mut node = vec![0xf9u8, 0x02, 0x11];
    for child in 0..16u8 {
        node.push(0xa0);
        node.extend(std::iter::repeat(child).take(32));
    }
    node.push(0x80);
    assert_eq!(node_type(&node), Ok(NodeType::Branch));
}

#[test]
fn a_two_item_node_with_path_nibble_two_or_three_is_a_leaf() {
    assert_eq!(node_type(&[0xc4, 0x82, 0x20, 0x01, 0x01]), Ok(NodeType::Leaf));
    assert_eq!(node_type(&[0xc4, 0x82, 0x3a, 0x01, 0x01]), Ok(NodeType::Leaf));
    // a path of one byte below 0x80 stands for itself
    assert_eq!(node_type(&[0xc2, 0x20, 0x01]), Ok(NodeType::Leaf));
}

#[test]
fn a_two_item_node_with_path_nibble_zero_or_one_is_an_extension() {
    assert_eq!(node_type(&[0xc4, 0x82, 0x00, 0x01, 0x01]), Ok(NodeType::Extension));
    assert_eq!(node_type(&[0xc4, 0x82, 0x1f, 0x01, 0x01]), Ok(NodeType::Extension));
}

#[test]
fn a_path_with_another_first_nibble_is_refused() {
    assert_eq!(node_type(&[0xc4, 0x82, 0x40, 0x01, 0x01]), Err(NodeError::PathPrefix));
    // an empty path
    assert_eq!(node_type(&[0xc2, 0x80, 0x01]), Err(NodeError::PathPrefix));
    // a list in the place of the path
    assert_eq!(node_type(&[0xc2, 0xc0, 0x01]), Err(NodeError::PathPrefix));
}

#[test]
fn a_byte_string_is_no_node() {
    assert_eq!(node_type(&[0x82, 0x20, 0x01]), Err(NodeError::NotAList));
    assert_eq!(node_type(&[0x05]), Err(NodeError::NotAList));
}

#[test]
fn other_item_counts_are_refused_with_the_count() {
    assert_eq!(node_type(&[0xc0]), Err(NodeError::ItemCount(0)));
    assert_eq!(node_type(&[0xc3, 0x01, 0x02, 0x03]), Err(NodeError::ItemCount(3)));
}

#[test]
fn cut_or_overlong_input_is_malformed() {
    assert_eq!(node_type(&[]), Err(NodeError::Malformed));
    // the list announces four bytes and holds three
    assert_eq!(node_type(&[0xc4, 0x82, 0x20, 0x01]), Err(NodeError::Malformed));
    // a byte follows the list
    assert_eq!(node_type(&[0xc2, 0x20, 0x01, 0x00]), Err(NodeError::Malformed));
    // the second item reaches past the end of the list
    assert_eq!(node_type(&[0xc3, 0x20, 0x82, 0x01]), Err(NodeError::Malformed));
    // a length in long form that the short form could hold
    assert_eq!(node_type(&[0xf8, 0x02, 0x20, 0x01]), Err(NodeError::Malformed));
    // a single byte below 0x80 wrapped as a string
    assert_eq!(node_type(&[0xc3, 0x81, 0x20, 0x01]), Err(NodeError::Malformed));
}

#[test]
fn classifying_twice_gives_the_same_answer() {
    let node = [0xc4u8, 0x82, 0x20, 0x01, 0x01];
    assert_eq!(node_type(&node), node_type(&node));
    let bad = [0xc4u8, 0x82, 0x20];
    assert_eq!(node_type(&bad), node_type(&bad));
}

#[test]
fn lengths_in_long_form_are_read() {
    // a leaf whose value has 60 bytes: 3 bytes of path, 62 of value
    let mut node = vec![0xf8u8, 0x41, 0x82, 0x20, 0x01, 0xb8, 0x3c];
    node.extend(std::iter::repeat(0x77u8).take(60));
    assert_eq!(node_type(&node), Ok(NodeType::Leaf));
    // the same with one byte missing
    node.pop();
    assert_eq!(node_type(&node), Err(NodeError::Malformed));
    // a path of 56 bytes in long form
    let mut node = vec![0xf8u8, 0x3b, 0xb8, 0x38, 0x10];
    node.extend(std::iter::repeat(0x00u8).take(55));
    node.push(0x05);
    assert_eq!(node_type(&node), Ok(NodeType::Extension));
}

#[test]
fn a_length_with_a_leading_zero_is_malformed() {
    let mut node = vec![0xf9u8, 0x00, 0x41, 0x82, 0x20, 0x01, 0xb8, 0x3c];
    node.extend(std::iter::repeat(0x77u8).take(60));
    assert_eq!(node_type(&node), Err(NodeError::Malformed));
    let mut node = vec![0xf8u8, 0x42, 0x82, 0x20, 0x01, 0xb9, 0x00, 0x3c];
    node.extend(std::iter::repeat(0x77u8).take(60));
    assert_eq!(node_type(&node), Err(NodeError::Malformed));
}
