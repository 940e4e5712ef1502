use vstd::prelude::*;
use vstd::string::*;
use crate::entity_id::{
    id_text, id_text_of, lemma_uuid_text_has_no_separator, parse_uuid, random_uuid,
    uuid_parse_of, uuid_text, is_random_uuid, EntityId, EntityIdError, ID_SEPARATOR,
};

verus! {

/// The prefix of every user identifier.
pub const USER_PREFIX: &'static str = "usr";

/// `k` is the position of the one separator in `s`.
pub open spec fn separator_at(s: Seq<char>, k: int) -> bool {
    &&& 0 <= k < s.len()
    &&& s[k] == ID_SEPARATOR
    &&& forall|j: int| 0 <= j < s.len() && j != k ==> s[j] != ID_SEPARATOR
}

/// What a text reads as a user identifier: exactly one separator, the user
/// prefix before it and a uuid after it give the canonical identifier text
/// of that uuid.
pub open spec fn user_id_parse(s: Seq<char>) -> Result<Seq<char>, EntityIdError> {
    if exists|k: int| separator_at(s, k) {
        let k = choose|k: int| separator_at(s, k);
        if s.take(k) != USER_PREFIX@ {
            Err(EntityIdError::InvalidFormat)
        } else {
            match uuid_parse_of(s.skip(k + 1)) {
                Some(v) => Ok(id_text(USER_PREFIX@, v)),
                None => Err(EntityIdError::InvalidUuid),
            }
        }
    } else {
        Err(EntityIdError::InvalidFormat)
    }
}

/// The identifier of a user: `usr_<uuid>`.
#[derive(Debug, PartialEq, Eq)]
pub struct UserId {
    prefix: String,
    value: String,
}

impl View for UserId {
    type V = Seq<char>;

    closed spec fn view(&self) -> Seq<char> {
        self.value@
    }
}

impl UserId {
    #[verifier::type_invariant]
    closed spec fn well_formed(self) -> bool {
        &&& self.prefix@ == USER_PREFIX@
        &&& exists|v: u128| self.value@ == #[trigger] id_text(USER_PREFIX@, v)
    }

    /// A user identifier with a fresh random uuid.
    pub fn new() -> (r: UserId)
        ensures
            exists|v: u128| r@ == #[trigger] id_text(USER_PREFIX@, v) && is_random_uuid(v),
    {
        let v = random_uuid();
        let r = UserId::from_uuid(v);
        assert(r@ == id_text(USER_PREFIX@, v) && is_random_uuid(v));
        r
    }

    /// The user identifier of the uuid `v`.
    pub fn from_uuid(v: u128) -> (r: UserId)
        ensures
            r@ == id_text(USER_PREFIX@, v),
    {
        let value = id_text_of(USER_PREFIX, v);
        UserId { prefix: String::from_str(USER_PREFIX), value }
    }

    /// Reads a user identifier from its text.
    pub fn from_str(s: &str) -> (r: Result<UserId, EntityIdError>)
        ensures
            match r {
                Ok(id) => user_id_parse(s@) == Ok::<Seq<char>, EntityIdError>(id@),
                Err(e) => user_id_parse(s@) == Err::<Seq<char>, EntityIdError>(e),
            },
            forall|v: u128| #[trigger] id_text(USER_PREFIX@, v) == s@ ==> (r is Ok && r->Ok_0@ == s@),
    {
        proof {
            reveal_strlit("usr");
        }
        let n = s.unicode_len();
        let mut i: usize = 0;
        let mut first: Option<usize> = None;
        while i < n
            invariant
                n == s@.len(),
                i <= n,
                match first {
                    None => forall|j: int| 0 <= j < i ==> s@[j] != ID_SEPARATOR,
                    Some(k) => {
                        &&& k < i
                        &&& s@[k as int] == ID_SEPARATOR
                        &&& forall|j: int| 0 <= j < i && j != k ==> s@[j] != ID_SEPARATOR
                    },
                },
            decreases n - i,
        {
            let c = s.get_char(i);
            if c == '_' {
                match first {
                    None => {
                        first = Some(i);
                    },
                    Some(k) => {
                        proof {
                            assert forall|m: int| !separator_at(s@, m) by {
                                if separator_at(s@, m) {
                                    if m == k {
                                        assert(s@[i as int] == ID_SEPARATOR);
                                    } else {
                                        assert(s@[k as int] == ID_SEPARATOR);
                                    }
                                }
                            }
                            Self::lemma_not_id_text(s@);
                        }
                        return Err(EntityIdError::InvalidFormat);
                    },
                }
            }
            i = i + 1;
        }
        match first {
            None => {
                proof {
                    assert forall|m: int| !separator_at(s@, m) by {
                        if separator_at(s@, m) {
                            assert(s@[m] == ID_SEPARATOR);
                        }
                    }
                    Self::lemma_not_id_text(s@);
                }
                Err(EntityIdError::InvalidFormat)
            },
            Some(k) => {
                assert(separator_at(s@, k as int));
                proof {
                    let c = choose|m: int| separator_at(s@, m);
                    if c != k {
                        assert(s@[c] == ID_SEPARATOR);
                    }
                    assert forall|v: u128| #[trigger] id_text(USER_PREFIX@, v) == s@ implies {
                        &&& s@.take(k as int) == USER_PREFIX@
                        &&& s@.skip(k + 1) == uuid_text(v)
                    } by {
                        Self::lemma_split_id_text(v);
                        if k != 3 {
                            assert(s@[3] == ID_SEPARATOR);
                        }
                    }
                }
                let head = s.substring_char(0, k);
                let rest = s.substring_char(k + 1, n);
                if head.to_owned() != String::from_str(USER_PREFIX) {
                    return Err(EntityIdError::InvalidFormat);
                }
                match parse_uuid(rest) {
                    Some(v) => Ok(UserId::from_uuid(v)),
                    None => Err(EntityIdError::InvalidUuid),
                }
            },
        }
    }

    /// The identifier text of a uuid splits at its one separator into the
    /// user prefix and the uuid's canonical text.
    proof fn lemma_split_id_text(v: u128)
        ensures
            separator_at(id_text(USER_PREFIX@, v), 3),
            id_text(USER_PREFIX@, v).take(3) == USER_PREFIX@,
            id_text(USER_PREFIX@, v).skip(4) == uuid_text(v),
    {
        reveal_strlit("usr");
        lemma_uuid_text_has_no_separator(v);
        let t = id_text(USER_PREFIX@, v);
        assert(t.take(3) =~= USER_PREFIX@);
        assert(t.skip(4) =~= uuid_text(v));
        assert forall|j: int| 0 <= j < t.len() && j != 3 implies t[j] != ID_SEPARATOR by {
            if j > 3 {
                assert(t[j] == uuid_text(v)[j - 4]);
            }
        }
    }

    /// An identifier text with any prefix other than the user prefix, and no
    /// separator in that prefix, does not read as a user identifier.
    pub proof fn lemma_wrong_prefix_refused(p: Seq<char>, v: u128)
        requires
            p != USER_PREFIX@,
            forall|j: int| 0 <= j < p.len() ==> p[j] != ID_SEPARATOR,
        ensures
            user_id_parse(id_text(p, v)) == Err::<Seq<char>, EntityIdError>(
                EntityIdError::InvalidFormat,
            ),
    {
        lemma_uuid_text_has_no_separator(v);
        let t = id_text(p, v);
        let k = p.len() as int;
        assert forall|j: int| 0 <= j < t.len() && j != k implies t[j] != ID_SEPARATOR by {
            if j > k {
                assert(t[j] == uuid_text(v)[j - k - 1]);
            }
        }
        assert(separator_at(t, k));
        let c = choose|m: int| separator_at(t, m);
        if c != k {
            assert(t[c] == ID_SEPARATOR);
        }
        assert(t.take(k) =~= p);
    }

    /// A user identifier text followed by a further separator and part does
    /// not read as a user identifier.
    pub proof fn lemma_extra_part_refused(v: u128, extra: Seq<char>)
        ensures
            user_id_parse(id_text(USER_PREFIX@, v) + seq![ID_SEPARATOR] + extra) == Err::<
                Seq<char>,
                EntityIdError,
            >(EntityIdError::InvalidFormat),
    {
        Self::lemma_split_id_text(v);
        let t = id_text(USER_PREFIX@, v);
        let s = t + seq![ID_SEPARATOR] + extra;
        assert(s[3] == ID_SEPARATOR);
        assert(s[t.len() as int] == ID_SEPARATOR);
        assert forall|m: int| !separator_at(s, m) by {
            if separator_at(s, m) {
                if m == 3 {
                    assert(s[t.len() as int] == ID_SEPARATOR);
                } else {
                    assert(s[3] == ID_SEPARATOR);
                }
            }
        }
    }

    /// A text with no single separator is no identifier text.
    proof fn lemma_not_id_text(s: Seq<char>)
        requires
            forall|m: int| !separator_at(s, m),
        ensures
            forall|v: u128| #[trigger] id_text(USER_PREFIX@, v) != s,
    {
        assert forall|v: u128| #[trigger] id_text(USER_PREFIX@, v) != s by {
            Self::lemma_split_id_text(v);
        }
    }

    /// The identifier text, as `Display` shows it.
    pub fn to_string(&self) -> (r: String)
        ensures
            r@ == self@,
            exists|v: u128| r@ == #[trigger] id_text(USER_PREFIX@, v),
    {
        proof {
            use_type_invariant(self);
        }
        self.value.clone()
    }
}

impl Clone for UserId {
    fn clone(&self) -> (r: UserId)
        ensures
            r@ == self@,
    {
        proof {
            use_type_invariant(self);
        }
        UserId { prefix: self.prefix.clone(), value: self.value.clone() }
    }
}

impl EntityId for UserId {
    fn generate_id(p: &str, u: Option<u128>) -> (r: String) {
        match u {
            Some(v) => id_text_of(p, v),
            None => {
                let v = random_uuid();
                let r = id_text_of(p, v);
                assert(r@ == id_text(p@, v) && is_random_uuid(v));
                r
            },
        }
    }

    fn type_prefix(&self) -> (r: &String)
        ensures
            r@ == USER_PREFIX@,
    {
        proof {
            use_type_invariant(self);
        }
        &self.prefix
    }

    fn value(&self) -> (r: &String)
        ensures
            r@ == self@,
            exists|v: u128| r@ == #[trigger] id_text(USER_PREFIX@, v),
    {
        proof {
            use_type_invariant(self);
        }
        &self.value
    }
}

} // verus!
