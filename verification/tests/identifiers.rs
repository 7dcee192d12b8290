use order_taking::ids::{Code, Id};

struct OrderTag;
struct ProductTag;

#[test]
fn ids_wrap_their_number() {
    let order_id: Id<OrderTag> = Id::new(14);
    assert_eq!(order_id.get(), 14);
    let other: Id<ProductTag> = Id::new(77);
    assert_eq!(other.get(), 77);
}

#[test]
fn codes_wrap_their_text() {
    let code: Code<ProductTag> = Code::new("W1234".to_string());
    assert_eq!(code.get(), "W1234".to_string());
}
