use vstd::prelude::*;

verus! {

/// `b` with its trailing NUL bytes removed.
pub open spec fn trim_nul(b: Seq<u8>) -> Seq<u8>
    decreases b.len(),
{
    if b.len() > 0 && b.last() == 0 {
        trim_nul(b.drop_last())
    } else {
        b
    }
}

/// The text that `String::from_utf8_lossy` makes of `b`: each invalid
/// sequence is replaced by U+FFFD.
pub uninterp spec fn utf8_lossy(b: Seq<u8>) -> Seq<char>;

/// The text of a NUL-padded field.
pub open spec fn field_text_spec(raw: Seq<u8>) -> Seq<char> {
    utf8_lossy(trim_nul(raw))
}

/// Relies on `String::from_utf8_lossy`: the text depends on the bytes alone,
/// and no bytes give no text.
#[verifier::external_body]
fn lossy_text(b: &[u8]) -> (r: String)
    ensures
        r@ == utf8_lossy(b@),
        b@.len() == 0 ==> r@.len() == 0,
{
    String::from_utf8_lossy(b).into_owned()
}

/// The length of `raw` once its trailing NUL bytes are removed.
pub fn trimmed_len(raw: &[u8]) -> (n: usize)
    ensures
        n <= raw@.len(),
        raw@.subrange(0, n as int) == trim_nul(raw@),
{
    let mut end: usize = raw.len();
    assert(raw@.subrange(0, end as int) =~= raw@);
    while end > 0 && raw[end - 1] == 0
        invariant
            end <= raw@.len(),
            trim_nul(raw@.subrange(0, end as int)) == trim_nul(raw@),
        decreases end,
    {
        assert(raw@.subrange(0, end as int).drop_last() =~= raw@.subrange(0, end - 1));
        end = end - 1;
    }
    end
}

/// Decodes a NUL-padded field: drops the trailing NUL bytes, then reads the
/// rest as UTF-8, replacing invalid sequences.
pub fn field_text(raw: &[u8]) -> (r: String)
    ensures
        r@ == field_text_spec(raw@),
{
    let n = trimmed_len(raw);
    lossy_text(&raw[0..n])
}

} // verus!
