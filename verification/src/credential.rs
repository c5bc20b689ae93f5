//! The credential of a session and its place in the metadata of a call.

use crate::text::chars_of;
use tonic::metadata::MetadataMap;
use vstd::prelude::*;
use vstd::utf8::encode_utf8;

verus! {

/// The metadata of a call, kept by `tonic`. What it holds is known here
/// only through `metadata_entries` and `metadata_len`.
#[verifier::external_type_specification]
#[verifier::external_body]
pub struct ExMetadataMap(MetadataMap);

/// What a metadata map holds: for each key the bytes of its values, in the
/// order in which they were added.
pub uninterp spec fn metadata_entries(map: MetadataMap) -> Map<Seq<char>, Seq<Seq<u8>>>;

/// The number of values in a metadata map, as `MetadataMap::len` counts
/// them.
pub uninterp spec fn metadata_len(map: MetadataMap) -> nat;

/// The key under which the credential travels.
pub const TOKEN_KEY: &'static str = "canary-api-token";

/// The number of values from which on a map takes no credential any
/// more. The table of a smaller map never has to grow beyond its fixed
/// upper size, which is where `insert` would panic.
pub const MAX_METADATA_LEN: usize = 4096;

/// Whether `c` may stand in the text of a metadata value: any character
/// but the control characters of ASCII, of which only the tab is taken.
pub open spec fn is_value_char(c: char) -> bool {
    let u = c as int;
    (32 <= u && u != 127) || u == 9
}

/// Whether `text` can be a metadata value.
pub open spec fn is_value_text(text: Seq<char>) -> bool {
    forall|i: int| 0 <= i < text.len() ==> is_value_char(#[trigger] text[i])
}

/// Whether `c` may stand in a metadata key as this library writes them: a
/// lower-case letter, a digit or a hyphen.
pub open spec fn is_key_char(c: char) -> bool {
    ('a' <= c <= 'z') || ('0' <= c <= '9') || c == '-'
}

/// Whether `key` can be the key of a text value: one to sixty-four key
/// characters that do not end in `-bin`.
pub open spec fn is_text_key(key: Seq<char>) -> bool {
    &&& 1 <= key.len() <= 64
    &&& forall|i: int| 0 <= i < key.len() ==> is_key_char(#[trigger] key[i])
    &&& !(key.len() >= 4 && key.subrange(key.len() - 4, key.len() as int) == seq![
        '-',
        'b',
        'i',
        'n',
    ])
}

/// The bytes of a text: its encoding in UTF-8.
pub open spec fn text_bytes(text: Seq<char>) -> Seq<u8> {
    encode_utf8(text)
}

/// `MetadataMap::insert` with a static key and a value parsed from text:
/// afterwards the key holds this value and no other, and every other key
/// holds what it held. The key must be one that `tonic` takes for text
/// values, the value a text that parses as a metadata value, and the map
/// small enough not to outgrow its table: on other inputs the call panics.
#[verifier::external_body]
fn insert_text(map: &mut MetadataMap, key: &'static str, value: &str)
    requires
        is_text_key(key@),
        is_value_text(value@),
        metadata_len(*old(map)) < MAX_METADATA_LEN,
    ensures
        metadata_entries(*final(map)) == metadata_entries(*old(map)).insert(
            key@,
            seq![text_bytes(value@)],
        ),
{
    map.insert(key, value.parse().unwrap());
}

/// `MetadataMap::len`: the number of values in the map.
#[verifier::external_body]
fn count_values(map: &MetadataMap) -> (r: usize)
    ensures
        r == metadata_len(*map),
{
    map.len()
}

/// Whether `c` may stand in the text of a metadata value.
pub fn can_stand_in_value(c: char) -> (r: bool)
    ensures
        r == is_value_char(c),
{
    let u: u32 = c as u32;
    (32 <= u && u != 127) || u == 9
}

/// Why a credential was not accepted.
#[derive(Clone, Copy, Debug, PartialEq, Eq, Structural)]
pub enum CredentialError {
    /// The token holds a character that no metadata value can hold.
    InvalidToken,
}

/// Adds the session's credential to the metadata of every call.
#[derive(Debug, PartialEq, Eq)]
pub struct ApiKeyInterceptor {
    api_key: String,
}

impl ApiKeyInterceptor {
    /// The token is one that the metadata of a call can carry.
    #[verifier::type_invariant]
    pub closed spec fn well_formed(&self) -> bool {
        is_value_text(self.api_key@)
    }

    /// The token of the credential.
    pub closed spec fn token(&self) -> Seq<char> {
        self.api_key@
    }

    /// An interceptor for the token `api_key`, where the token can be a
    /// metadata value.
    pub fn new(api_key: String) -> (r: Result<ApiKeyInterceptor, CredentialError>)
        ensures
            r is Ok <==> is_value_text(api_key@),
            r matches Ok(i) ==> i.token() == api_key@,
            r matches Err(e) ==> e == CredentialError::InvalidToken,
    {
        let chars = chars_of(api_key.as_str());
        let mut i: usize = 0;
        while i < chars.len()
            invariant
                i <= chars.len(),
                chars@ == api_key@,
                forall|j: int| 0 <= j < i ==> is_value_char(#[trigger] chars@[j]),
            decreases chars.len() - i,
        {
            if !can_stand_in_value(chars[i]) {
                return Err(CredentialError::InvalidToken);
            }
            i += 1;
        }
        Ok(ApiKeyInterceptor { api_key })
    }

    /// The token of the credential.
    pub fn api_key(&self) -> (r: &String)
        ensures
            r@ == self.token(),
            is_value_text(r@),
    {
        proof {
            use_type_invariant(self);
        }
        &self.api_key
    }

    /// Puts the credential into `metadata` under the token key, in place
    /// of whatever stood there. Every other key is left as it was.
    pub fn call(&self, metadata: &mut MetadataMap)
        requires
            metadata_len(*old(metadata)) < MAX_METADATA_LEN,
        ensures
            metadata_entries(*final(metadata)) == metadata_entries(*old(metadata)).insert(
                TOKEN_KEY@,
                seq![text_bytes(self.token())],
            ),
    {
        proof {
            use_type_invariant(self);
            lemma_token_key();
        }
        insert_text(metadata, TOKEN_KEY, self.api_key.as_str());
    }

    /// Puts the credential into `metadata` as `call` does, where the map
    /// has room for it. Tells whether it did; a map that is full is left
    /// unchanged.
    pub fn try_call(&self, metadata: &mut MetadataMap) -> (added: bool)
        ensures
            added <==> metadata_len(*old(metadata)) < MAX_METADATA_LEN,
            added ==> metadata_entries(*final(metadata)) == metadata_entries(
                *old(metadata),
            ).insert(TOKEN_KEY@, seq![text_bytes(self.token())]),
            !added ==> *final(metadata) == *old(metadata),
    {
        if count_values(metadata) < MAX_METADATA_LEN {
            self.call(metadata);
            true
        } else {
            false
        }
    }
}

impl Clone for ApiKeyInterceptor {
    fn clone(&self) -> (r: Self)
        ensures
            r.token() == self.token(),
    {
        proof {
            use_type_invariant(self);
        }
        ApiKeyInterceptor { api_key: self.api_key.clone() }
    }
}

/// The token key is a key for text values.
pub proof fn lemma_token_key()
    ensures
        is_text_key(TOKEN_KEY@),
{
    reveal_strlit("canary-api-token");
    let key = TOKEN_KEY@;
    assert(key.subrange(key.len() - 4, key.len() as int)[0] == 'o');
}

} // verus!
