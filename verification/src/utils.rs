//! Small text utilities: case inversion, hashing, validation and the
//! framing of a response.

use crate::clock::seconds_of;
use crate::clock::system_clock;
use crate::clock::unix_seconds;
use crate::clock::ClockReading;
use crate::text::decimal_nat;
use crate::text::hex_nat;
use crate::text::push_decimal;
use crate::text::push_hex;
use std::collections::hash_map::DefaultHasher;
use std::hash::Hash;
use std::hash::Hasher;
use vstd::prelude::*;
use vstd::std_specs::hash::DefaultHasherAdditionalSpecFns;
use vstd::std_specs::iter::IteratorSpec;
use vstd::string::spec_iter;
use vstd::string::StringSliceAdditionalSpecFns;

verus! {

/// The longest input, in bytes of UTF-8, that counts as valid.
pub const MAX_INPUT_BYTES: usize = 1000;

/// The version that the library reports.
pub fn get_version() -> (version: &'static str)
    ensures
        version@ == "1.0.0"@,
{
    "1.0.0"
}

/// A letter of the ASCII alphabet in the other case; any other
/// character as it is.
pub open spec fn swap_ascii_case(c: char) -> char {
    if 'A' <= c <= 'Z' {
        ((c as u8) + 32) as char
    } else if 'a' <= c <= 'z' {
        ((c as u8) - 32) as char
    } else {
        c
    }
}

/// What `process_input_data` answers to `input`.
pub open spec fn processed(input: Seq<char>) -> Seq<char> {
    "Processed: "@ + input.map_values(|c: char| swap_ascii_case(c))
}

fn swap_case(c: char) -> (swapped: char)
    ensures
        swapped == swap_ascii_case(c),
{
    if 'A' <= c && c <= 'Z' {
        ((c as u8) + 32) as char
    } else if 'a' <= c && c <= 'z' {
        ((c as u8) - 32) as char
    } else {
        c
    }
}

/// Inverts the case of every ASCII letter of `input` and puts
/// `Processed: ` in front.
pub fn process_input_data(input: &str) -> (output: String)
    ensures
        output@ == processed(input@),
{
    let mut output = String::from_str("Processed: ");
    let ghost walked = spec_iter(input).remaining();
    for c in it: input.chars()
        invariant
            it.seq() == walked,
            walked == input@,
            output@ == "Processed: "@ + input@.take(it.index()).map_values(|c: char| swap_ascii_case(c)),
    {
        output.push(swap_case(c));
    }
    output
}

/// What hashing a text feeds into a hasher: the writes that the standard
/// library makes for a `str`, one after the other.
pub uninterp spec fn text_feed(data: Seq<char>) -> Seq<Seq<u8>>;

/// `Hash::hash` of the standard library for `str`, with a `DefaultHasher`
/// as the state. The writes that it adds to the hasher depend on the
/// text alone; what was written before stays.
#[verifier::external_body]
fn feed_text(state: &mut DefaultHasher, data: &str)
    ensures
        final(state)@ == old(state)@ + text_feed(data@),
{
    data.hash(state);
}

/// The digest of a fresh default hasher that was fed with `data`.
pub open spec fn text_digest(data: Seq<char>) -> u64 {
    DefaultHasher::spec_finish(Seq::<Seq<u8>>::empty() + text_feed(data))
}

/// The digest of `data` under the standard library's default hasher, in
/// lower-case hexadecimal without leading zeros.
pub fn calculate_hash(data: &str) -> (digest: String)
    ensures
        digest@ == hex_nat(text_digest(data@) as nat),
{
    let mut hasher = DefaultHasher::new();
    feed_text(&mut hasher, data);
    let mut digest = String::new();
    push_hex(&mut digest, hasher.finish());
    digest
}

/// An input is valid when it is not empty and its UTF-8 form has at
/// most [`MAX_INPUT_BYTES`] bytes.
pub open spec fn is_valid_input(input: &str) -> bool {
    input@.len() > 0 && input.spec_bytes().len() <= MAX_INPUT_BYTES
}

/// Whether `input` is valid.
pub fn validate_input(input: &str) -> (valid: bool)
    ensures
        valid == is_valid_input(input),
{
    !input.is_empty() && input.as_bytes().len() <= MAX_INPUT_BYTES
}

/// The entries of a response's metadata as pairs of character sequences.
pub open spec fn entries_view(entries: Seq<(String, String)>) -> Seq<(Seq<char>, Seq<char>)> {
    entries.map_values(|entry: (String, String)| (entry.0@, entry.1@))
}

/// The metadata of a response made `seconds` after the start of 1970:
/// the version, the status, and the time as a decimal number.
pub open spec fn response_entries(seconds: u64) -> Seq<(Seq<char>, Seq<char>)> {
    seq![
        ("version"@, "1.0.0"@),
        ("status"@, "ok"@),
        ("timestamp"@, decimal_nat(seconds as nat)),
    ]
}

/// The metadata of a response made at the clock reading `clock`.
pub fn create_response_map_at(clock: ClockReading) -> (metadata: Vec<(String, String)>)
    ensures
        entries_view(metadata@) == response_entries(seconds_of(clock)),
{
    let mut stamp = String::new();
    push_decimal(&mut stamp, unix_seconds(clock));
    let mut metadata: Vec<(String, String)> = Vec::new();
    metadata.push(("version".to_string(), get_version().to_string()));
    metadata.push(("status".to_string(), "ok".to_string()));
    metadata.push(("timestamp".to_string(), stamp));
    assert(entries_view(metadata@) =~= response_entries(seconds_of(clock)));
    metadata
}

/// The metadata of a response made now: the version, the status, and the
/// seconds that the wall clock gave.
pub fn create_response_map() -> (metadata: Vec<(String, String)>)
    ensures
        exists|seconds: u64| entries_view(metadata@) == #[trigger] response_entries(seconds),
{
    create_response_map_at(system_clock())
}

/// The lines that the metadata adds to a response: for each entry a line
/// break, the key, a colon with a blank, and the value.
pub open spec fn metadata_lines(entries: Seq<(Seq<char>, Seq<char>)>) -> Seq<char>
    decreases entries.len(),
{
    if entries.len() == 0 {
        Seq::empty()
    } else {
        metadata_lines(entries.drop_last()) + "\n"@ + entries.last().0 + ": "@ + entries.last().1
    }
}

/// A response: the data behind `Data: `, then one line for each entry of
/// the metadata, in the order of the entries.
pub open spec fn response_text(data: Seq<char>, entries: Seq<(Seq<char>, Seq<char>)>) -> Seq<char> {
    "Data: "@ + data + metadata_lines(entries)
}

/// Frames `data` and `metadata` as a response.
pub fn format_response(data: &str, metadata: &Vec<(String, String)>) -> (response: String)
    ensures
        response@ == response_text(data@, entries_view(metadata@)),
{
    let mut response = String::from_str("Data: ");
    response.append(data);
    let mut i: usize = 0;
    while i < metadata.len()
        invariant
            i <= metadata.len(),
            response@ == response_text(data@, entries_view(metadata@).take(i as int)),
        decreases metadata.len() - i,
    {
        let ghost before = entries_view(metadata@).take(i as int);
        let ghost after = entries_view(metadata@).take(i + 1);
        assert(after.drop_last() =~= before);
        response.append("\n");
        response.append(metadata[i].0.as_str());
        response.append(": ");
        response.append(metadata[i].1.as_str());
        i = i + 1;
    }
    assert(entries_view(metadata@).take(i as int) =~= entries_view(metadata@));
    response
}

} // verus!
