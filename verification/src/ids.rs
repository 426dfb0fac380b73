//! Short-link identifiers: a user's own choice, or a random URL-safe one.

use vstd::prelude::*;

verus! {

/// How many characters a generated short-link identifier has.
pub const SHORTLINK_ID_LEN: usize = 6;

/// How many characters a generated visit identifier has.
pub const VISIT_ID_LEN: usize = 20;

/// The characters that may stand in a URL without escaping and that random
/// identifiers are drawn from: `_`, `-`, the digits and the ASCII letters.
pub open spec fn url_safe(c: char) -> bool {
    ||| c == '_'
    ||| c == '-'
    ||| ('0' <= c && c <= '9')
    ||| ('a' <= c && c <= 'z')
    ||| ('A' <= c && c <= 'Z')
}

/// A text of `len` URL-safe characters.
pub open spec fn is_random_id(id: Seq<char>, len: nat) -> bool {
    &&& id.len() == len
    &&& forall|i: int| 0 <= i < id.len() ==> url_safe(#[trigger] id[i])
}

/// `nanoid::alphabet::SAFE`, the alphabet of the `nanoid!` macro. Its source
/// lists 64 characters, each of them URL-safe.
#[verifier::external_body]
fn nanoid_safe_alphabet() -> (a: [char; 64])
    ensures
        forall|i: int| 0 <= i < 64 ==> url_safe(#[trigger] a@[i]),
{
    nanoid::alphabet::SAFE
}

/// `nanoid::format` with the crate's default random source (what `nanoid!`
/// expands to). The result is random; the contract claims what holds of every
/// outcome: `size` characters, each taken from `alphabet`. The source asserts
/// an alphabet of at most 255 characters, counts the length in bytes (so the
/// alphabet is ASCII here), and never returns for an empty alphabet or a size
/// of zero: `requires` leaves those out.
#[verifier::external_body]
fn nanoid_format(alphabet: &[char], size: usize) -> (id: String)
    requires
        1 <= alphabet@.len() <= 255,
        forall|i: int| 0 <= i < alphabet@.len() ==> (#[trigger] alphabet@[i] as u32) < 128,
        size >= 1,
    ensures
        id@.len() == size,
        forall|i: int| 0 <= i < id@.len() ==> alphabet@.contains(#[trigger] id@[i]),
{
    nanoid::format(nanoid::rngs::default, alphabet, size)
}

/// A fresh random identifier of `len` URL-safe characters.
pub fn random_id(len: usize) -> (id: String)
    requires
        len >= 1,
    ensures
        is_random_id(id@, len as nat),
{
    let alphabet = nanoid_safe_alphabet();
    proof {
        assert forall|i: int| 0 <= i < alphabet@.len() implies (#[trigger] alphabet@[i] as u32)
            < 128 by {
            assert(url_safe(alphabet@[i]));
        }
    }
    let id = nanoid_format(alphabet.as_slice(), len);
    proof {
        assert forall|i: int| 0 <= i < id@.len() implies url_safe(#[trigger] id@[i]) by {
            assert(alphabet@.contains(id@[i]));
            let j = choose|j: int| 0 <= j < alphabet@.len() && alphabet@[j] == id@[i];
            assert(url_safe(alphabet@[j]));
        }
    }
    id
}

/// Whether `id` is a right identifier for a new short link whose user asked
/// for `requested`: the requested one when it is given and not empty, else a
/// random one of `SHORTLINK_ID_LEN` URL-safe characters.
pub open spec fn is_chosen_id(requested: Option<Seq<char>>, id: Seq<char>) -> bool {
    match requested {
        Some(r) => if r.len() > 0 { id == r } else { is_random_id(id, SHORTLINK_ID_LEN as nat) },
        None => is_random_id(id, SHORTLINK_ID_LEN as nat),
    }
}

/// The identifier of a new short link, as `is_chosen_id` says.
pub fn choose_shortlink_id(requested: Option<String>) -> (id: String)
    ensures
        is_chosen_id(
            match requested {
                Some(r) => Some(r@),
                None => None,
            },
            id@,
        ),
        id@.len() > 0,
{
    match requested {
        Some(r) => {
            if r.as_str().is_empty() {
                random_id(SHORTLINK_ID_LEN)
            } else {
                r
            }
        },
        None => random_id(SHORTLINK_ID_LEN),
    }
}

/// An identifier that was chosen for a short link is kept as it is when it is
/// asked for again: it is never empty, so a request for it is honoured.
pub proof fn law_chosen_id_is_kept(requested: Option<Seq<char>>, id: Seq<char>, again: Seq<char>)
    requires
        is_chosen_id(requested, id),
        is_chosen_id(Some(id), again),
    ensures
        again == id,
{
}

} // verus!
