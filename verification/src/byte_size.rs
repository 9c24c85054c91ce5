//! Human-readable byte counts, as rendered by the `bytesize` crate.
use vstd::prelude::*;

verus! {

#[verifier::external_type_specification]
#[verifier::external_body]
pub struct ExIoError(std::io::Error);

/// The character of the decimal digit `d`.
pub open spec fn digit_char(d: int) -> char {
    (('0' as int) + d) as char
}

/// The decimal notation of `n`, without sign or separators.
pub open spec fn decimal_text(n: nat) -> Seq<char>
    decreases n,
{
    if n < 10 {
        seq![digit_char(n as int)]
    } else {
        decimal_text(n / 10).push(digit_char((n % 10) as int))
    }
}

/// The text that `bytesize` renders for a count of bytes.
pub uninterp spec fn bytesize_text(bytes: u64) -> Seq<char>;

/// Calls `bytesize::ByteSize(bytes).to_string()`. Its result is named
/// `bytesize_text`; below one kibibyte the crate writes the plain count
/// followed by " B", which the contract states. Larger counts are scaled
/// to binary units with one decimal place, which is not stated.
#[verifier::external_body]
fn bytesize_to_string(bytes: u64) -> (text: String)
    ensures
        text@ == bytesize_text(bytes),
        bytes < 1024 ==> text@ == decimal_text(bytes as nat) + " B"@,
{
    bytesize::ByteSize(bytes).to_string()
}

/// Renders a number of bytes for display; it never fails.
pub fn mk_lib_common_bytesize(number_for_format: u64) -> (result: Result<String, std::io::Error>)
    ensures
        result matches Ok(text) && text@ == bytesize_text(number_for_format),
        number_for_format < 1024 ==> (result matches Ok(text) && text@ == decimal_text(
            number_for_format as nat,
        ) + " B"@),
{
    let result = bytesize_to_string(number_for_format);
    Ok(result)
}

} // verus!
