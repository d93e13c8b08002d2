use rand::Rng;
use vstd::prelude::*;
use vstd::string::StrSliceExecFns;
use vstd::string::StringExecFns;

verus! {

/// Number of characters in a conversation identifier.
pub const ID_LENGTH: usize = 16;

/// The characters an identifier is drawn from.
pub const ID_ALPHABET: &'static str = "ABCDEFGHIJKLMNOPQRSTUVWXYZabcdefghijklmnopqrstuvwxyz0123456789";

/// A character of the identifier alphabet `[A-Za-z0-9]`.
pub open spec fn is_id_char(c: char) -> bool {
    ('A' <= c && c <= 'Z') || ('a' <= c && c <= 'z') || ('0' <= c && c <= '9')
}

/// A well-formed conversation identifier: sixteen characters of `[A-Za-z0-9]`.
pub open spec fn is_chat_id(s: Seq<char>) -> bool {
    &&& s.len() == ID_LENGTH
    &&& forall|i: int| 0 <= i < s.len() ==> is_id_char(#[trigger] s[i])
}

/// rand's thread-local generator, carried through as an opaque handle.
#[verifier::external_type_specification]
#[verifier::external_body]
pub struct ExThreadRng(rand::rngs::ThreadRng);

/// Relies on rand::thread_rng: a handle to the thread-local generator.
#[verifier::external_body]
fn thread_rng() -> rand::rngs::ThreadRng {
    rand::thread_rng()
}

/// Relies on rand::Rng::gen_range over `0..bound`: a value below `bound`
/// (it panics on an empty range, which `requires` leaves out).
#[verifier::external_body]
fn gen_index(rng: &mut rand::rngs::ThreadRng, bound: usize) -> (r: usize)
    requires
        0 < bound,
    ensures
        r < bound,
{
    rng.gen_range(0..bound)
}

/// The identifier spelled by the given positions in the alphabet, one
/// character for each.
pub fn chat_id_from_indices(indices: &Vec<usize>) -> (r: String)
    requires
        forall|i: int| 0 <= i < indices@.len() ==> indices@[i] < 62,
    ensures
        r@ == indices@.map_values(|k: usize| ID_ALPHABET@[k as int]),
{
    let alphabet = ID_ALPHABET;
    proof {
        reveal_strlit("ABCDEFGHIJKLMNOPQRSTUVWXYZabcdefghijklmnopqrstuvwxyz0123456789");
    }
    assert(alphabet@.len() == 62);
    let mut id = String::new();
    let mut n: usize = 0;
    while n < indices.len()
        invariant
            n <= indices@.len(),
            alphabet@ == ID_ALPHABET@,
            alphabet@.len() == 62,
            forall|i: int| 0 <= i < indices@.len() ==> indices@[i] < 62,
            id@ == indices@.subrange(0, n as int).map_values(|k: usize| ID_ALPHABET@[k as int]),
        decreases indices@.len() - n,
    {
        let k = indices[n];
        let piece = alphabet.substring_char(k, k + 1);
        assert(piece@ =~= seq![alphabet@[k as int]]);
        id.append(piece);
        n = n + 1;
        assert(id@ =~= indices@.subrange(0, n as int).map_values(|k: usize| ID_ALPHABET@[k as int]));
    }
    assert(indices@.subrange(0, n as int) =~= indices@);
    id
}

/// A fresh random conversation identifier: sixteen positions drawn
/// uniformly from the alphabet, spelled by `chat_id_from_indices`.
pub fn generate_chat_id() -> (r: String)
    ensures
        is_chat_id(r@),
{
    let mut rng = thread_rng();
    let mut indices: Vec<usize> = Vec::new();
    while indices.len() < ID_LENGTH
        invariant
            indices@.len() <= ID_LENGTH,
            forall|i: int| 0 <= i < indices@.len() ==> indices@[i] < 62,
        decreases ID_LENGTH - indices@.len(),
    {
        let k = gen_index(&mut rng, 62);
        indices.push(k);
    }
    let id = chat_id_from_indices(&indices);
    proof {
        reveal_strlit("ABCDEFGHIJKLMNOPQRSTUVWXYZabcdefghijklmnopqrstuvwxyz0123456789");
        assert forall|i: int| 0 <= i < id@.len() implies is_id_char(#[trigger] id@[i]) by {
            let k = indices@[i] as int;
            assert(id@[i] == ID_ALPHABET@[k]);
            assert(0 <= k < 62);
        }
    }
    id
}

} // verus!
