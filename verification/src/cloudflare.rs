use vstd::prelude::*;
use vstd::string::*;
use crate::decimal::{decimal, decimal_text, lemma_decimal_is_read_back, parse_i64, read_decimal};
use crate::text::{join, same_text};
use crate::time::SECS_PER_DAY;

verus! {

/// Why the durable store of session snapshots failed.
#[derive(Debug)]
pub enum CloudflareError {
    /// The store refused a request.
    ApiError(String),
    /// A snapshot could not be written as a document or read from one.
    SerializationError(String),
    /// The store could not be reached.
    NetworkError(String),
    /// The store did not accept the credentials.
    AuthError(String),
}

impl CloudflareError {
    /// The failure in words.
    pub open spec fn message_text(self) -> Seq<char> {
        match self {
            CloudflareError::ApiError(message) => "Cloudflare API error: "@ + message@,
            CloudflareError::SerializationError(message) => "Serialization error: "@ + message@,
            CloudflareError::NetworkError(message) => "Network error: "@ + message@,
            CloudflareError::AuthError(message) => "Authentication error: "@ + message@,
        }
    }

    /// The failure in words.
    pub fn message(&self) -> (text: String)
        ensures
            text@ == self.message_text(),
    {
        match self {
            CloudflareError::ApiError(message) => join("Cloudflare API error: ", message.as_str()),
            CloudflareError::SerializationError(message) => join(
                "Serialization error: ",
                message.as_str(),
            ),
            CloudflareError::NetworkError(message) => join("Network error: ", message.as_str()),
            CloudflareError::AuthError(message) => join(
                "Authentication error: ",
                message.as_str(),
            ),
        }
    }
}

/// The key under which the snapshot of the marker `marker` is kept.
pub open spec fn key_text(marker: i64) -> Seq<char> {
    "sessions_"@ + decimal_text(marker as int)
}

/// The marker of the snapshot that is kept under `key`; a key of another
/// form keeps no snapshot.
pub open spec fn marker_of(key: Seq<char>) -> Option<i64> {
    if key.len() >= 9 && key.take(9) == "sessions_"@ {
        parse_i64(key.skip(9))
    } else {
        None
    }
}

/// Whether the key at `place` keeps the newest snapshot: none has a
/// greater marker, and none before it has the same.
pub open spec fn is_latest(keys: Seq<Seq<char>>, place: int) -> bool {
    &&& 0 <= place < keys.len()
    &&& marker_of(keys[place]) is Some
    &&& forall|j: int|
        0 <= j < keys.len() && marker_of(#[trigger] keys[j]) is Some ==> marker_of(keys[j])->0
            <= marker_of(keys[place])->0
    &&& forall|j: int|
        0 <= j < place && marker_of(#[trigger] keys[j]) is Some ==> marker_of(keys[j])->0
            < marker_of(keys[place])->0
}

/// Whether the key at `place` keeps a snapshot that is older than
/// `cutoff`.
pub open spec fn is_stale(keys: Seq<Seq<char>>, cutoff: i64, place: int) -> bool {
    0 <= place < keys.len() && marker_of(keys[place]) is Some && marker_of(keys[place])->0 < cutoff
}

/// The texts of a list of keys.
pub open spec fn key_texts(keys: Seq<String>) -> Seq<Seq<char>> {
    Seq::new(keys.len(), |i: int| keys[i]@)
}

/// The key of a snapshot names its marker.
pub proof fn lemma_key_names_its_marker(marker: i64)
    ensures
        marker_of(key_text(marker)) == Some(marker),
{
    reveal_strlit("sessions_");
    let key = key_text(marker);
    assert(key.take(9) =~= "sessions_"@);
    assert(key.skip(9) =~= decimal_text(marker as int));
    lemma_decimal_is_read_back(marker as int);
}

/// A snapshot that is stored under a marker greater than every marker in
/// the store is the one that is loaded next.
pub proof fn lemma_stored_snapshot_is_loaded(keys: Seq<Seq<char>>, marker: i64)
    requires
        forall|j: int|
            0 <= j < keys.len() && marker_of(#[trigger] keys[j]) is Some ==> marker_of(keys[j])->0
                < marker,
    ensures
        is_latest(keys.push(key_text(marker)), keys.len() as int),
{
    lemma_key_names_its_marker(marker);
    let stored = keys.push(key_text(marker));
    assert forall|j: int|
        0 <= j < stored.len() && marker_of(#[trigger] stored[j]) is Some implies marker_of(
        stored[j],
    )->0 <= marker by {
        if j < keys.len() {
            assert(stored[j] == keys[j]);
        }
    }
    assert forall|j: int|
        0 <= j < keys.len() && marker_of(#[trigger] stored[j]) is Some implies marker_of(
        stored[j],
    )->0 < marker by {
        assert(stored[j] == keys[j]);
    }
}

/// Where the snapshots of the session registry are kept.
#[derive(Debug)]
pub struct CloudflareKvManager {
    pub account_id: String,
    pub namespace_id: String,
}

impl CloudflareKvManager {
    /// The store of the namespace `namespace_id` of the account
    /// `account_id`.
    pub fn new(account_id: String, namespace_id: String) -> (manager: Self)
        ensures
            manager.account_id@ == account_id@,
            manager.namespace_id@ == namespace_id@,
    {
        CloudflareKvManager { account_id, namespace_id }
    }

    /// What the status of the store's answer means: nothing on success,
    /// else a failure that carries `reason`, which is one of the
    /// credentials where the status is 401 or 403.
    pub fn refusal(status: u16, reason: String) -> (refused: Option<CloudflareError>)
        ensures
            200 <= status < 300 ==> refused is None,
            status == 401 || status == 403 ==> (refused matches Some(
                CloudflareError::AuthError(text),
            ) && text@ == reason@),
            !(200 <= status < 300) && status != 401 && status != 403 ==> (refused matches Some(
                CloudflareError::ApiError(text),
            ) && text@ == reason@),
    {
        if status >= 200 && status < 300 {
            None
        } else if status == 401 || status == 403 {
            Some(CloudflareError::AuthError(reason))
        } else {
            Some(CloudflareError::ApiError(reason))
        }
    }

    /// The key under which the snapshot of the marker `marker` is kept.
    pub fn generation_key(marker: i64) -> (key: String)
        ensures
            key@ == key_text(marker),
    {
        join("sessions_", decimal(marker).as_str())
    }

    /// The marker of the snapshot that is kept under `key`.
    pub fn generation_marker(key: &str) -> (marker: Option<i64>)
        ensures
            marker == marker_of(key@),
    {
        proof {
            reveal_strlit("sessions_");
        }
        let length = key.unicode_len();
        if length < 9 {
            return None;
        }
        if !same_text(key.substring_char(0, 9), "sessions_") {
            assert(key@.take(9) =~= key@.subrange(0, 9));
            return None;
        }
        assert(key@.take(9) =~= key@.subrange(0, 9));
        assert(key@.skip(9) =~= key@.subrange(9, length as int));
        read_decimal(key.substring_char(9, length))
    }

    /// The place of the key that keeps the newest snapshot, if any key
    /// keeps one.
    pub fn latest_generation(keys: &Vec<String>) -> (place: Option<usize>)
        ensures
            match place {
                Some(found) => is_latest(key_texts(keys@), found as int),
                None => forall|j: int|
                    0 <= j < keys@.len() ==> marker_of(#[trigger] key_texts(keys@)[j]) is None,
            },
    {
        let ghost texts = key_texts(keys@);
        let mut best: Option<(usize, i64)> = None;
        let mut i: usize = 0;
        while i < keys.len()
            invariant
                i <= keys.len(),
                texts == key_texts(keys@),
                match best {
                    Some((found, marker)) => {
                        &&& found < i
                        &&& marker_of(texts[found as int]) == Some(marker)
                        &&& forall|j: int|
                            0 <= j < i && marker_of(#[trigger] texts[j]) is Some ==> marker_of(
                                texts[j],
                            )->0 <= marker
                        &&& forall|j: int|
                            0 <= j < found && marker_of(#[trigger] texts[j]) is Some ==> marker_of(
                                texts[j],
                            )->0 < marker
                    },
                    None => forall|j: int| 0 <= j < i ==> marker_of(#[trigger] texts[j]) is None,
                },
            decreases keys.len() - i,
        {
            assert(texts[i as int] == keys@[i as int]@);
            match Self::generation_marker(keys[i].as_str()) {
                Some(marker) => {
                    let newer = match best {
                        Some((_, greatest)) => marker > greatest,
                        None => true,
                    };
                    if newer {
                        best = Some((i, marker));
                    }
                },
                None => {},
            }
            i = i + 1;
        }
        match best {
            Some((found, _)) => Some(found),
            None => None,
        }
    }

    /// The marker before which a snapshot is older than `keep_days` days
    /// at the second `now`.
    pub fn retention_cutoff(now: i64, keep_days: u32) -> (cutoff: i64)
        requires
            now - keep_days * SECS_PER_DAY >= i64::MIN,
        ensures
            cutoff == now - keep_days * SECS_PER_DAY,
    {
        now - keep_days as i64 * SECS_PER_DAY
    }

    /// The places of the keys that keep a snapshot older than `cutoff`, in
    /// rising order.
    pub fn stale_generations(keys: &Vec<String>, cutoff: i64) -> (places: Vec<usize>)
        ensures
            forall|a: int, b: int| 0 <= a < b < places@.len() ==> places@[a] < places@[b],
            forall|a: int|
                0 <= a < places@.len() ==> is_stale(
                    key_texts(keys@),
                    cutoff,
                    #[trigger] places@[a] as int,
                ),
            forall|j: int|
                is_stale(key_texts(keys@), cutoff, j) ==> exists|a: int|
                    0 <= a < places@.len() && #[trigger] places@[a] == j,
    {
        let ghost texts = key_texts(keys@);
        let mut places: Vec<usize> = Vec::new();
        let mut i: usize = 0;
        while i < keys.len()
            invariant
                i <= keys.len(),
                texts == key_texts(keys@),
                forall|a: int| 0 <= a < places@.len() ==> #[trigger] places@[a] < i,
                forall|a: int, b: int| 0 <= a < b < places@.len() ==> places@[a] < places@[b],
                forall|a: int|
                    0 <= a < places@.len() ==> is_stale(texts, cutoff, #[trigger] places@[a] as int),
                forall|j: int|
                    0 <= j < i && is_stale(texts, cutoff, j) ==> exists|a: int|
                        0 <= a < places@.len() && #[trigger] places@[a] == j,
            decreases keys.len() - i,
        {
            assert(texts[i as int] == keys@[i as int]@);
            let ghost listed = places@;
            let stale = match Self::generation_marker(keys[i].as_str()) {
                Some(marker) => marker < cutoff,
                None => false,
            };
            if stale {
                places.push(i);
                proof {
                    assert forall|j: int|
                        0 <= j < i + 1 && is_stale(texts, cutoff, j) implies exists|a: int|
                        0 <= a < places@.len() && #[trigger] places@[a] == j by {
                        if j < i {
                            let a = choose|a: int| 0 <= a < listed.len() && #[trigger] listed[a] == j;
                            assert(places@[a] == j);
                        } else {
                            assert(places@[listed.len() as int] == j);
                        }
                    }
                }
            }
            i = i + 1;
        }
        places
    }
}

} // verus!
