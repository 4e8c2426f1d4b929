//! Decision logic of the object-fetch collaborator.
//!
//! The fetch itself — an HTTP round trip to the storage proxy — lives
//! outside this library; what is verified here is the pure part: how a
//! base URL is normalized and how a response status is classified.

use vstd::prelude::*;
use vstd::string::StrSliceExecFns;

use crate::errors::StorageError;

verus! {

/// The string with every trailing `/` removed.
pub open spec fn trim_trailing_slashes(s: Seq<char>) -> Seq<char>
    decreases s.len(),
{
    if s.len() > 0 && s[s.len() - 1] == '/' {
        trim_trailing_slashes(s.drop_last())
    } else {
        s
    }
}

/// Normalizes a storage base URL by stripping every trailing slash, so a
/// key can be appended with exactly one separator.
pub fn normalize_base_url(url: &str) -> (r: String)
    ensures
        r@ == trim_trailing_slashes(url@),
{
    let n = url.unicode_len();
    proof {
        assert(url@.subrange(0, n as int) =~= url@);
    }
    let mut cut = n;
    while cut > 0 && url.get_char(cut - 1) == '/'
        invariant
            cut <= n,
            n == url@.len(),
            trim_trailing_slashes(url@) == trim_trailing_slashes(url@.subrange(0, cut as int)),
        decreases cut,
    {
        proof {
            let prefix = url@.subrange(0, cut as int);
            assert(prefix.drop_last() =~= url@.subrange(0, cut as int - 1));
        }
        cut = cut - 1;
    }
    proof {
        let prefix = url@.subrange(0, cut as int);
        assert(trim_trailing_slashes(prefix) == prefix);
    }
    url.substring_char(0, cut).to_owned()
}

/// Classifies the HTTP status of a storage-proxy response: any success
/// status accepts the object; 404 means the key names nothing; 403 means
/// access was refused; anything else is unexpected.
pub fn classify_fetch_status(status: u16, key: &str) -> (r: Result<(), StorageError>)
    ensures
        r is Ok <==> 200 <= status < 300,
        status == 404 ==> (r matches Err(StorageError::NotFound { key: k }) && k@ == key@),
        status == 403 ==> r == Err::<(), StorageError>(StorageError::Forbidden),
        !(200 <= status < 300) && status != 404 && status != 403 ==> r == Err::<(), StorageError>(
            StorageError::UnexpectedStatus { status },
        ),
{
    if 200 <= status && status < 300 {
        Ok(())
    } else if status == 404 {
        Err(StorageError::NotFound { key: key.to_owned() })
    } else if status == 403 {
        Err(StorageError::Forbidden)
    } else {
        Err(StorageError::UnexpectedStatus { status })
    }
}

} // verus!
