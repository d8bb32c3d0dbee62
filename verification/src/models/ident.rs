//! Order ids: the text of a random UUID, 32 lower-case hex digits with no
//! separators.

use vstd::prelude::*;

verus! {

/// One digit of an id: `0` to `9` or `a` to `f`.
pub open spec fn is_lower_hex(c: char) -> bool {
    ('0' <= c && c <= '9') || ('a' <= c && c <= 'f')
}

/// The shape of an order id: 32 lower-case hex digits, of which the
/// thirteenth gives the version, 4, and the seventeenth the variant.
pub open spec fn is_order_id(id: Seq<char>) -> bool {
    &&& id.len() == 32
    &&& forall|i: int| 0 <= i < 32 ==> is_lower_hex(#[trigger] id[i])
    &&& id[12] == '4'
    &&& (id[16] == '8' || id[16] == '9' || id[16] == 'a' || id[16] == 'b')
}

/// Some text has the shape of an order id.
pub proof fn lemma_order_id_exists()
    ensures
        exists|id: Seq<char>| #[trigger] is_order_id(id),
{
    let id = Seq::new(32, |i: int| if i == 16 { '8' } else { '4' });
    assert(is_order_id(id));
}

/// `uuid::Uuid::new_v4`, written out by `uuid::fmt::Simple::encode_lower`:
/// a fresh random id. Which id comes is left open; that it has the shape of
/// an order id is trusted, not proved.
#[verifier::external_body]
pub(crate) fn fresh_order_id() -> (id: String)
    ensures
        is_order_id(id@),
{
    let mut buffer = uuid::Uuid::encode_buffer();
    String::from(&*uuid::Uuid::new_v4().simple().encode_lower(&mut buffer))
}

} // verus!
