//! The failures that the registry reports.

use vstd::prelude::*;
use vstd::string::*;
use vstd::utf8::*;
use crate::text::text_from_bytes;

verus! {

/// Why an operation of the registry did not go through.
#[derive(Debug, PartialEq, Eq)]
pub enum StoreError {
    /// An anchor or a payload is malformed, or too large to be stored.
    Validation,
    /// The identifier belongs to another instance of the registry.
    Scope,
    /// A code record exists under the hash with another kind or source
    /// text: the kind and source text stored, then those submitted.
    CodeExists { stored_code: String, stored_js: String, code: String, js: String },
    /// An API record exists under the hash with other content.
    ApiExists,
    /// A bundle exists under the hash with other components.
    CombinedExists,
    /// The access policy of the dapp turned the caller away.
    AccessDenied { id: u64 },
    /// No dapp is stored under the key.
    NotFound { id: u64 },
    /// No access policy is stored for the dapp.
    MissingAccess,
    /// The dapp is frozen, for the reason given.
    Frozen { reason: String },
    /// The dapp is frozen; said of a query that counts the access.
    DappFrozen { id: u64 },
    /// The caller is not an administrator.
    Permission,
}

/// A failure as a mathematical value.
pub enum ErrorModel {
    Validation,
    Scope,
    CodeExists { stored_code: Seq<char>, stored_js: Seq<char>, code: Seq<char>, js: Seq<char> },
    ApiExists,
    CombinedExists,
    AccessDenied { id: u64 },
    NotFound { id: u64 },
    MissingAccess,
    Frozen { reason: Seq<char> },
    DappFrozen { id: u64 },
    Permission,
}

impl View for StoreError {
    type V = ErrorModel;

    open spec fn view(&self) -> ErrorModel {
        match self {
            StoreError::Validation => ErrorModel::Validation,
            StoreError::Scope => ErrorModel::Scope,
            StoreError::CodeExists { stored_code, stored_js, code, js } => ErrorModel::CodeExists {
                stored_code: stored_code@,
                stored_js: stored_js@,
                code: code@,
                js: js@,
            },
            StoreError::ApiExists => ErrorModel::ApiExists,
            StoreError::CombinedExists => ErrorModel::CombinedExists,
            StoreError::AccessDenied { id } => ErrorModel::AccessDenied { id: *id },
            StoreError::NotFound { id } => ErrorModel::NotFound { id: *id },
            StoreError::MissingAccess => ErrorModel::MissingAccess,
            StoreError::Frozen { reason } => ErrorModel::Frozen { reason: reason@ },
            StoreError::DappFrozen { id } => ErrorModel::DappFrozen { id: *id },
            StoreError::Permission => ErrorModel::Permission,
        }
    }
}

/// What an operation without a value returned.
pub open spec fn done(r: Result<(), StoreError>) -> Result<(), ErrorModel> {
    match r {
        Ok(_) => Ok(()),
        Err(e) => Err(e@),
    }
}

/// What an operation with a value returned: the value or the failure, each
/// as a mathematical value.
pub open spec fn outcome<T: View>(r: Result<T, StoreError>) -> Result<T::V, ErrorModel> {
    match r {
        Ok(v) => Ok(v@),
        Err(e) => Err(e@),
    }
}

/// The character of a digit.
pub open spec fn digit_char(d: u64) -> char
    recommends
        d < 10,
{
    ((48 + d) as u8) as char
}

/// A number written in decimal digits, without leading zeroes.
pub open spec fn decimal_digits(n: u64) -> Seq<char>
    decreases n,
{
    if n < 10 {
        seq![digit_char(n)]
    } else {
        decimal_digits(n / 10).push(digit_char(n % 10))
    }
}

/// The bytes of a text of digits: each character as one byte.
pub open spec fn digit_bytes(chars: Seq<char>) -> Seq<u8> {
    chars.map_values(|c: char| c as u8)
}

/// The decimal digits of a number are ASCII characters, and there is at
/// least one.
pub proof fn lemma_digits_are_ascii(n: u64)
    ensures
        is_ascii_chars(decimal_digits(n)),
        decimal_digits(n).len() >= 1,
    decreases n,
{
    if n >= 10 {
        lemma_digits_are_ascii(n / 10);
    }
}

/// Appends the decimal digits of a number, each as its ASCII byte.
fn push_digits(n: u64, out: &mut Vec<u8>)
    ensures
        final(out)@ == old(out)@ + digit_bytes(decimal_digits(n)),
    decreases n,
{
    if n >= 10 {
        push_digits(n / 10, out);
    }
    out.push((48 + n % 10) as u8);
    assert(out@ =~= old(out)@ + digit_bytes(decimal_digits(n)));
}

/// A number written in decimal digits.
pub fn decimal_text(n: u64) -> (out: String)
    ensures
        out@ == decimal_digits(n),
{
    let mut bytes: Vec<u8> = Vec::new();
    push_digits(n, &mut bytes);
    proof {
        let digits = decimal_digits(n);
        lemma_digits_are_ascii(n);
        is_ascii_chars_encode_utf8(digits);
        assert(bytes@ =~= encode_utf8(digits));
        encode_utf8_valid_utf8(digits);
        encode_utf8_decode_utf8(digits);
    }
    text_from_bytes(bytes).unwrap()
}

/// A text as `Debug` writes it: between quotes, with its special characters
/// escaped.
pub uninterp spec fn debug_quoted(s: Seq<char>) -> Seq<char>;

/// Formats a text with `{:?}`, the `Debug` of `String`.
#[verifier::external_body]
pub(crate) fn quoted_text(s: &String) -> (out: String)
    ensures
        out@ == debug_quoted(s@),
{
    format!("{:?}", s)
}

/// The message of a conflict between two code records, given the kind and
/// the source text of each as they are to be printed.
pub open spec fn code_exists_text(
    stored_code: Seq<char>,
    stored_js: Seq<char>,
    code: Seq<char>,
    js: Seq<char>,
) -> Seq<char> {
    "code already exists: "@ + stored_code + " "@ + stored_js + " vs "@ + code + " "@ + js
}

/// The message of a conflict between two code records, given the kind and
/// the source text of each as they are to be printed.
pub fn code_exists_message(stored_code: &String, stored_js: &String, code: &String, js: &String) -> (out: String)
    ensures
        out@ == code_exists_text(stored_code@, stored_js@, code@, js@),
{
    String::from_str("code already exists: ").concat(stored_code.as_str()).concat(" ").concat(
        stored_js.as_str(),
    ).concat(" vs ").concat(code.as_str()).concat(" ").concat(js.as_str())
}

impl ErrorModel {
    /// The failure is a conflict: a record exists under the key with other
    /// content.
    pub open spec fn is_conflict(self) -> bool {
        self is CodeExists || self is ApiExists || self is CombinedExists
    }

    /// The message of the failure, as a caller reads it.
    pub open spec fn message(self) -> Seq<char> {
        match self {
            ErrorModel::Validation => "Invalid anchor or payload"@,
            ErrorModel::Scope => "Wrong canister id"@,
            ErrorModel::CodeExists { stored_code, stored_js, code, js } => code_exists_text(
                debug_quoted(stored_code),
                debug_quoted(stored_js),
                debug_quoted(code),
                debug_quoted(js),
            ),
            ErrorModel::ApiExists => "api already exists"@,
            ErrorModel::CombinedExists => "combined already exists"@,
            ErrorModel::AccessDenied { id } => "access is deny: "@ + decimal_digits(id),
            ErrorModel::NotFound { id } => "dapp is missing: "@ + decimal_digits(id),
            ErrorModel::MissingAccess => "dapp access is missing"@,
            ErrorModel::Frozen { reason } => "Frozen: "@ + reason,
            ErrorModel::DappFrozen { id } => "dapp is frozen: "@ + decimal_digits(id),
            ErrorModel::Permission => "Permission is required"@,
        }
    }
}

impl StoreError {
    /// Whether the failure is a conflict.
    pub fn is_conflict(&self) -> (conflict: bool)
        ensures
            conflict == self@.is_conflict(),
    {
        match self {
            StoreError::CodeExists { .. } => true,
            StoreError::ApiExists => true,
            StoreError::CombinedExists => true,
            _ => false,
        }
    }

    /// The message of the failure, as a caller reads it.
    pub fn message(&self) -> (out: String)
        ensures
            out@ == self@.message(),
    {
        match self {
            StoreError::Validation => String::from_str("Invalid anchor or payload"),
            StoreError::Scope => String::from_str("Wrong canister id"),
            StoreError::CodeExists { stored_code, stored_js, code, js } => {
                let a = quoted_text(stored_code);
                let b = quoted_text(stored_js);
                let c = quoted_text(code);
                let d = quoted_text(js);
                code_exists_message(&a, &b, &c, &d)
            },
            StoreError::ApiExists => String::from_str("api already exists"),
            StoreError::CombinedExists => String::from_str("combined already exists"),
            StoreError::AccessDenied { id } => {
                let digits = decimal_text(*id);
                String::from_str("access is deny: ").concat(digits.as_str())
            },
            StoreError::NotFound { id } => {
                let digits = decimal_text(*id);
                String::from_str("dapp is missing: ").concat(digits.as_str())
            },
            StoreError::MissingAccess => String::from_str("dapp access is missing"),
            StoreError::Frozen { reason } => String::from_str("Frozen: ").concat(reason.as_str()),
            StoreError::DappFrozen { id } => {
                let digits = decimal_text(*id);
                String::from_str("dapp is frozen: ").concat(digits.as_str())
            },
            StoreError::Permission => String::from_str("Permission is required"),
        }
    }
}

} // verus!
