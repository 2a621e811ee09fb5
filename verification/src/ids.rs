//! Record identifiers and their session-string form.
//!
//! A user's durable identifier is a record address made of a table name and a
//! record key. The session layer can only hold strings, so the identifier is
//! written as `table:key` and parsed back on the next request. Parsing splits
//! at the first colon; a well-formed identifier therefore has a non-empty,
//! colon-free table name and a non-empty key, and the codec round-trips
//! exactly on such identifiers.

use vstd::prelude::*;

verus! {

/// Mathematical model of a record identifier: the two name parts as
/// character sequences.
#[verifier::ext_equal]
pub struct UserIdView {
    pub table: Seq<char>,
    pub key: Seq<char>,
}

impl UserIdView {
    /// A well-formed identifier: non-empty table without a colon, non-empty
    /// key. Only such identifiers round-trip through the session string.
    pub open spec fn wf(self) -> bool {
        &&& self.table.len() > 0
        &&& self.key.len() > 0
        &&& forall|j: int| 0 <= j < self.table.len() ==> self.table[j] != ':'
    }
}

/// A durable record identifier: the address of a user row in the backing
/// store, held as plain strings.
pub struct UserId {
    pub table: String,
    pub key: String,
}

impl View for UserId {
    type V = UserIdView;

    open spec fn view(&self) -> UserIdView {
        UserIdView { table: self.table@, key: self.key@ }
    }
}

impl UserId {
    /// Executable well-formedness, reflected by `UserIdView::wf`.
    pub fn is_wf(&self) -> (b: bool)
        ensures
            b == self@.wf(),
    {
        let tlen = self.table.as_str().unicode_len();
        let klen = self.key.as_str().unicode_len();
        if tlen == 0 || klen == 0 {
            return false;
        }
        let mut j: usize = 0;
        while j < tlen
            invariant
                j <= tlen,
                tlen == self.table@.len(),
                klen == self.key@.len(),
                tlen > 0 && klen > 0,
                forall|i: int| 0 <= i < j ==> self.table@[i] != ':',
            decreases tlen - j,
        {
            if self.table.as_str().get_char(j) == ':' {
                return false;
            }
            j += 1;
        }
        true
    }
}

/// A user identity as held by a session: a thin wrapper around the record
/// identifier of the user row it refers to.
pub struct SessionUserId(pub UserId);

impl View for SessionUserId {
    type V = UserIdView;

    open spec fn view(&self) -> UserIdView {
        self.0@
    }
}

/// The session-string form of an identifier: table, colon, key.
pub open spec fn spec_encode(id: UserIdView) -> Seq<char> {
    id.table + seq![':'] + id.key
}

/// Index of the first colon in `s`, or -1 when `s` has none.
pub open spec fn first_colon(s: Seq<char>) -> int
    decreases s.len(),
{
    if s.len() == 0 {
        -1
    } else if s[0] == ':' {
        0
    } else {
        let r = first_colon(s.drop_first());
        if r < 0 {
            -1
        } else {
            r + 1
        }
    }
}

/// `i` is the position of the first colon of `s`.
pub open spec fn is_first_colon_at(s: Seq<char>, i: int) -> bool {
    &&& 0 <= i < s.len()
    &&& s[i] == ':'
    &&& forall|j: int| 0 <= j < i ==> s[j] != ':'
}

/// `first_colon` finds the first colon when there is one, and reports -1
/// exactly when there is none.
pub proof fn lemma_first_colon(s: Seq<char>)
    ensures
        first_colon(s) == -1 ==> forall|j: int| 0 <= j < s.len() ==> s[j] != ':',
        first_colon(s) >= 0 ==> is_first_colon_at(s, first_colon(s)),
        first_colon(s) == -1 || first_colon(s) >= 0,
    decreases s.len(),
{
    if s.len() > 0 && s[0] != ':' {
        let t = s.drop_first();
        lemma_first_colon(t);
        let r = first_colon(t);
        if r == -1 {
            assert forall|j: int| 0 <= j < s.len() implies s[j] != ':' by {
                if j > 0 {
                    assert(s[j] == t[j - 1]);
                }
            }
        } else {
            assert(s[r + 1] == t[r]);
            assert forall|j: int| 0 <= j < r + 1 implies s[j] != ':' by {
                if j > 0 {
                    assert(s[j] == t[j - 1]);
                }
            }
        }
    }
}

/// The first-colon position is unique, so any witness pins `first_colon`.
pub proof fn lemma_first_colon_at(s: Seq<char>, i: int)
    requires
        is_first_colon_at(s, i),
    ensures
        first_colon(s) == i,
{
    lemma_first_colon(s);
    if first_colon(s) == -1 {
        assert(s[i] != ':');
    } else {
        let k = first_colon(s);
        if k < i {
            assert(s[k] != ':');
        }
        if i < k {
            assert(s[i] != ':');
        }
    }
}

/// The parsed form of a session string: split at the first colon, valid only
/// when both parts are non-empty.
pub open spec fn spec_parse(s: Seq<char>) -> Option<UserIdView> {
    let i = first_colon(s);
    if 0 < i && i + 1 < s.len() {
        Some(
            UserIdView {
                table: s.subrange(0, i),
                key: s.subrange(i + 1, s.len() as int),
            },
        )
    } else {
        None
    }
}

/// Writing an identity into its session string and parsing it back yields
/// the identifier that was written.
pub proof fn lemma_session_string_round_trip(id: UserIdView)
    requires
        id.wf(),
    ensures
        spec_parse(spec_encode(id)) == Some(id),
{
    let s = spec_encode(id);
    let n = id.table.len() as int;
    assert(s[n] == ':');
    assert(forall|j: int| 0 <= j < n ==> s[j] == id.table[j]);
    lemma_first_colon_at(s, n);
    assert(s.subrange(0, n) =~= id.table);
    assert(s.subrange(n + 1, s.len() as int) =~= id.key);
    assert(spec_parse(s) == Some(id));
}

/// Any string that parses came from encoding the parsed identifier, and the
/// parsed identifier is well formed.
pub proof fn lemma_parse_then_encode(s: Seq<char>)
    requires
        spec_parse(s) is Some,
    ensures
        spec_parse(s)->Some_0.wf(),
        spec_encode(spec_parse(s)->Some_0) =~= s,
{
    let i = first_colon(s);
    lemma_first_colon(s);
    let v = spec_parse(s)->Some_0;
    assert(forall|j: int| 0 <= j < v.table.len() ==> v.table[j] == s[j]);
    assert(spec_encode(v) =~= s);
}

impl SessionUserId {
    /// The string under which this identity is kept in the session.
    pub fn to_session_string(&self) -> (s: String)
        ensures
            s@ == spec_encode(self@),
    {
        let s = self.0.table.clone().concat(":").concat(self.0.key.as_str());
        proof {
            reveal_strlit(":");
            assert(s@ =~= spec_encode(self@));
        }
        s
    }

    /// Parses a session string back into an identity; `None` on a malformed
    /// string (no colon, empty table, or empty key).
    pub fn from_session_string(s: &str) -> (r: Option<SessionUserId>)
        ensures
            match r {
                Some(id) => spec_parse(s@) == Some(id@) && id@.wf(),
                None => spec_parse(s@) is None,
            },
    {
        let len = s.unicode_len();
        let mut i: usize = 0;
        while i < len && s.get_char(i) != ':'
            invariant
                i <= len,
                len == s@.len(),
                forall|j: int| 0 <= j < i ==> s@[j] != ':',
            decreases len - i,
        {
            i += 1;
        }
        if i == len {
            proof {
                lemma_first_colon(s@);
                if first_colon(s@) >= 0 {
                    assert(s@[first_colon(s@)] != ':');
                }
            }
            return None;
        }
        proof {
            lemma_first_colon_at(s@, i as int);
        }
        if i == 0 || i + 1 == len {
            return None;
        }
        let table = s.substring_char(0, i).to_owned();
        let key = s.substring_char(i + 1, len).to_owned();
        let id = SessionUserId(UserId { table, key });
        proof {
            lemma_parse_then_encode(s@);
        }
        Some(id)
    }

    /// Decodes what the session layer handed back: `None` when the key was
    /// absent, otherwise the parse of the stored string. A malformed stored
    /// string reads as no identity rather than an error.
    pub fn from_session(stored: Option<String>) -> (r: Option<SessionUserId>)
        ensures
            match stored {
                None => r is None,
                Some(s) => match r {
                    Some(id) => spec_parse(s@) == Some(id@) && id@.wf(),
                    None => spec_parse(s@) is None,
                },
            },
    {
        match stored {
            None => None,
            Some(s) => Self::from_session_string(s.as_str()),
        }
    }
}

/// The fixed session key under which the identity string is stored.
pub fn session_key() -> (k: &'static str)
    ensures
        k@ == "user_id"@,
{
    "user_id"
}

} // verus!
