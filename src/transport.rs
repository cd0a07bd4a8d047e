use vstd::prelude::*;

verus! {

/// The error of a libcurl transfer, carried through as an opaque value.
#[verifier::external_type_specification]
#[verifier::external_body]
pub struct ExCurlError(curl::Error);

/// The text that `bytes` encode in UTF-8, or `None` where they are not UTF-8.
pub uninterp spec fn utf8_text(bytes: Seq<u8>) -> Option<Seq<char>>;

/// Relies on `String::from_utf8`: the bytes taken as UTF-8 text, or `None`
/// where they are not valid UTF-8; the answer depends on the bytes alone.
#[verifier::external_body]
pub(crate) fn decode_utf8(bytes: Vec<u8>) -> (r: Option<String>)
    ensures
        match r {
            Some(s) => utf8_text(bytes@) == Some(s@),
            None => utf8_text(bytes@) is None,
        },
{
    String::from_utf8(bytes).ok()
}

/// Appends one chunk of a response body to what arrived before it, and
/// reports the whole chunk as taken.
pub(crate) fn append_chunk(body: &mut Vec<u8>, chunk: &[u8]) -> (n: usize)
    ensures
        final(body)@ == old(body)@ + chunk@,
        n == chunk@.len(),
{
    let mut i: usize = 0;
    while i < chunk.len()
        invariant
            i <= chunk@.len(),
            body@ == old(body)@ + chunk@.take(i as int),
        decreases chunk@.len() - i,
    {
        proof {
            assert(chunk@.take(i + 1) =~= chunk@.take(i as int).push(chunk@[i as int]));
        }
        body.push(chunk[i]);
        i = i + 1;
    }
    proof {
        assert(chunk@.take(i as int) =~= chunk@);
    }
    i
}

/// Relies on curl's `Easy` handle (`new`, `url`, `transfer`,
/// `write_function`, `perform`): one blocking GET of `url`, giving the bytes
/// of the response body as they arrived, whatever the status code, or the
/// error of the transfer. What comes back depends on the network, so nothing
/// is promised of it.
#[verifier::external_body]
pub(crate) fn http_get(url: &str) -> (r: Result<Vec<u8>, curl::Error>) {
    let mut body: Vec<u8> = Vec::new();
    let mut handle = curl::easy::Easy::new();
    handle.url(url)?;
    {
        let mut transfer = handle.transfer();
        transfer.write_function(|chunk| Ok(append_chunk(&mut body, chunk)))?;
        transfer.perform()?;
    }
    Ok(body)
}

} // verus!
