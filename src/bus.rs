//! Names on the MQTT bus: the client id and the topics of commands.
use vstd::prelude::*;
use vstd::string::*;

verus! {

/// How many random characters follow the configured id in the client id.
pub const CLIENT_SUFFIX_LEN: usize = 8;

/// Whether `c` is an ASCII letter or digit.
pub open spec fn is_alphanumeric(c: char) -> bool {
    ('a' <= c && c <= 'z') || ('A' <= c && c <= 'Z') || ('0' <= c && c <= '9')
}

/// Relies on rand's `Alphanumeric` distribution, sampled with
/// `DistString::sample_string` from the thread-local generator: `len`
/// characters, each an ASCII letter or digit.
#[verifier::external_body]
fn random_alphanumeric(len: usize) -> (r: String)
    ensures
        r@.len() == len,
        forall|i: int| 0 <= i < r@.len() ==> is_alphanumeric(#[trigger] r@[i]),
{
    <rand::distributions::Alphanumeric as rand::distributions::DistString>::sample_string(
        &rand::distributions::Alphanumeric,
        &mut rand::thread_rng(),
        len,
    )
}

/// The topic on which commands for `topic` arrive: `topic` followed by `/set`.
pub fn command_topic(topic: &str) -> (r: String)
    ensures
        r@ == topic@ + "/set"@,
{
    String::from_str(topic).concat("/set")
}

/// The client id made of the configured id and a suffix: `<id>-<suffix>`.
pub fn client_id_from(id: &str, suffix: &str) -> (r: String)
    ensures
        r@ == id@ + "-"@ + suffix@,
{
    String::from_str(id).concat("-").concat(suffix)
}

/// A client id for this process: the configured id, a dash and eight random
/// letters or digits, so that two processes with one configuration do not
/// take each other's session at the broker.
pub fn client_id(id: &str) -> (r: String)
    ensures
        exists|suffix: Seq<char>|
            suffix.len() == CLIENT_SUFFIX_LEN && (forall|i: int|
                0 <= i < suffix.len() ==> is_alphanumeric(#[trigger] suffix[i])) && r@ == id@
                + "-"@ + suffix,
{
    let suffix = random_alphanumeric(CLIENT_SUFFIX_LEN);
    client_id_from(id, suffix.as_str())
}

} // verus!
