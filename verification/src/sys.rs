//! The bridge between this layer and the native engine's conventions: the
//! closed set of element types with their string tokens, the no-interior-NUL
//! rule for strings handed across the C boundary, and the translation of
//! native return codes into structured errors.

use vstd::prelude::*;
use vstd::slice::slice_index_get;
use crate::errors::TreeRiteError;
use crate::errors::is_native_error;
use crate::errors::is_unknown_token_error;

verus! {

/// The closed set of element types the native engine understands. The engine
/// itself identifies a type by a string token; this enumeration is the typed
/// face of those tokens.
#[derive(Clone, Copy, Debug, PartialEq, Eq, Structural)]
pub enum DataType {
    Float32,
    Float64,
    UInt32,
}

/// The native string token that names each data type.
pub open spec fn spec_token_of(d: DataType) -> Seq<char> {
    match d {
        DataType::Float32 => "float32"@,
        DataType::Float64 => "float64"@,
        DataType::UInt32 => "uint32"@,
    }
}

/// The data type a native token names, if any: recognition is exact string
/// match against the three fixed tokens.
pub open spec fn spec_data_type_of(token: Seq<char>) -> Option<DataType> {
    if token == "float32"@ {
        Some(DataType::Float32)
    } else if token == "float64"@ {
        Some(DataType::Float64)
    } else if token == "uint32"@ {
        Some(DataType::UInt32)
    } else {
        None
    }
}

impl DataType {
    /// The short display name of the element type.
    pub fn as_display(&self) -> (r: String)
        ensures
            match self {
                DataType::Float32 => r@ == "f32"@,
                DataType::Float64 => r@ == "f64"@,
                DataType::UInt32 => r@ == "u32"@,
            },
    {
        match self {
            DataType::Float32 => "f32".to_owned(),
            DataType::Float64 => "f64".to_owned(),
            DataType::UInt32 => "u32".to_owned(),
        }
    }

    /// The token under which the native engine knows this data type.
    pub fn as_token(&self) -> (r: &'static str)
        ensures
            r@ == spec_token_of(*self),
    {
        match self {
            DataType::Float32 => "float32",
            DataType::Float64 => "float64",
            DataType::UInt32 => "uint32",
        }
    }

    /// Read a native data-type token. A token outside the recognized set is a
    /// distinct error carrying that exact token, never a silent default.
    pub fn from_token(token: &str) -> (r: Result<DataType, TreeRiteError>)
        ensures
            match spec_data_type_of(token@) {
                Some(d) => r == Ok::<DataType, TreeRiteError>(d),
                None => r matches Err(e) && is_unknown_token_error(e, token@),
            },
    {
        let owned = token.to_owned();
        if owned == "float32".to_owned() {
            Ok(DataType::Float32)
        } else if owned == "float64".to_owned() {
            Ok(DataType::Float64)
        } else if owned == "uint32".to_owned() {
            Ok(DataType::UInt32)
        } else {
            Err(TreeRiteError::UnknownDataTypeString(owned))
        }
    }
}

/// Law: every supported data type's token parses back to exactly that data
/// type.
pub proof fn lemma_token_round_trip(d: DataType)
    ensures
        spec_data_type_of(spec_token_of(d)) == Some(d),
{
    reveal_strlit("float32");
    reveal_strlit("float64");
    reveal_strlit("uint32");
    match d {
        DataType::Float32 => {
        },
        DataType::Float64 => {
            assert("float64"@[5] == '6' && "float32"@[5] == '3');
            assert("float64"@ != "float32"@);
        },
        DataType::UInt32 => {
            assert("uint32"@.len() == 6 && "float32"@.len() == 7 && "float64"@.len() == 7);
            assert("uint32"@ != "float32"@ && "uint32"@ != "float64"@);
        },
    }
}

/// Law: a token that names a data type is exactly that data type's token, so
/// parsing and printing tokens lose nothing in either direction.
pub proof fn lemma_token_of_parsed(token: Seq<char>)
    ensures
        spec_data_type_of(token) matches Some(d) ==> spec_token_of(d) == token,
{
}

/// Law: no data-type token carries an interior NUL character, so every token
/// may cross the C boundary as it stands.
pub proof fn lemma_tokens_carry_no_nul(d: DataType)
    ensures
        forall|i: int| 0 <= i < spec_token_of(d).len() ==> spec_token_of(d)[i] != '\0',
{
    reveal_strlit("float32");
    reveal_strlit("float64");
    reveal_strlit("uint32");
}

/// A string handed across the C boundary must carry no interior NUL byte;
/// this reports whether the bytes are acceptable.
pub fn validate_cstr_contents(bytes: &[u8]) -> (ok: bool)
    ensures
        ok <==> (forall|i: int| 0 <= i < bytes@.len() ==> bytes@[i] != 0),
{
    let n: usize = bytes.len();
    let mut i: usize = 0;
    while i < n
        invariant
            n == bytes@.len(),
            i <= n,
            forall|j: int| 0 <= j < i ==> bytes@[j] != 0,
        decreases n - i,
    {
        if *slice_index_get(bytes, i) == 0u8 {
            assert(bytes@[i as int] == 0);
            return false;
        }
        i = i + 1;
    }
    true
}

/// Translate a native return code: zero is success and inspects nothing
/// further; nonzero wraps the engine's last-error text, verbatim, into the
/// native-reported error kind.
pub fn check_return_code(code: i32, last_error: &str) -> (r: Result<(), TreeRiteError>)
    ensures
        code == 0 <==> r is Ok,
        code != 0 ==> (r matches Err(e) && is_native_error(e, last_error@)),
{
    if code == 0 {
        Ok(())
    } else {
        Err(TreeRiteError::CError(last_error.to_owned()))
    }
}

} // verus!
