//! The ownership registry: which credential pair owns each filename.
//!
//! The registry is the single piece of shared state in the service. It is a
//! flat list of records with pairwise-distinct filenames, viewed abstractly as
//! a map from filename to owning credentials. `claim_or_verify` is its sole
//! growth point: the first claimant of a filename becomes its owner, and the
//! stored pair never changes afterwards.

use vstd::prelude::*;

verus! {

/// A username/password pair presented with a request or stored as an owner.
pub struct Credentials {
    pub username: String,
    pub password: String,
}

/// The abstract image of a credential pair: both fields as character
/// sequences.
pub struct CredentialsView {
    pub username: Seq<char>,
    pub password: Seq<char>,
}

impl View for Credentials {
    type V = CredentialsView;

    open spec fn view(&self) -> CredentialsView {
        CredentialsView { username: self.username@, password: self.password@ }
    }
}

/// Both credential fields are present. A request that omits a field carries it
/// as an empty string, so presence means: both fields non-empty.
pub open spec fn credentials_present(c: CredentialsView) -> bool {
    c.username.len() > 0 && c.password.len() > 0
}

impl Credentials {
    /// Whether both fields are present (non-empty).
    pub fn is_present(&self) -> (r: bool)
        ensures
            r == credentials_present(self@),
    {
        proof {
            if self.username@.len() == 0 {
                assert(self.username@ =~= Seq::<char>::empty());
            }
            if self.password@.len() == 0 {
                assert(self.password@ =~= Seq::<char>::empty());
            }
        }
        !self.username.as_str().is_empty() && !self.password.as_str().is_empty()
    }

    /// A copy with the same field contents.
    pub fn duplicate(&self) -> (c: Credentials)
        ensures
            c@ == self@,
    {
        Credentials { username: self.username.clone(), password: self.password.clone() }
    }
}

/// The claim on one filename: created by the first successful upload, never
/// rewritten afterwards.
pub struct OwnershipRecord {
    pub filename: String,
    pub owner: Credentials,
}

/// The outcome of `claim_or_verify`: either the candidate may proceed (as the
/// brand-new owner or as the already-recorded one), or it is turned away.
pub enum AuthDecision {
    Authorized { new_owner: bool },
    Denied,
}

/// Pairwise-distinct filenames: at most one record per filename.
pub open spec fn unique_filenames(s: Seq<OwnershipRecord>) -> bool {
    forall|i: int, j: int|
        0 <= i < j < s.len() ==> s[i].filename@ != s[j].filename@
}

/// The map a record list denotes: each filename to its owner's credentials.
pub open spec fn map_of(s: Seq<OwnershipRecord>) -> Map<Seq<char>, CredentialsView>
    decreases s.len(),
{
    if s.len() == 0 {
        Map::empty()
    } else {
        map_of(s.drop_last()).insert(s.last().filename@, s.last().owner@)
    }
}

/// A filename is in the map exactly when some record carries it.
proof fn lemma_map_of_contains(s: Seq<OwnershipRecord>, k: Seq<char>)
    ensures
        map_of(s).contains_key(k) <==> exists|i: int|
            0 <= i < s.len() && s[i].filename@ == k,
    decreases s.len(),
{
    if s.len() > 0 {
        lemma_map_of_contains(s.drop_last(), k);
        if s.last().filename@ == k {
            assert(s[s.len() - 1].filename@ == k);
        } else {
            if exists|i: int| 0 <= i < s.len() && s[i].filename@ == k {
                let i = choose|i: int| 0 <= i < s.len() && s[i].filename@ == k;
                assert(s.drop_last()[i] == s[i]);
            }
            if exists|i: int| 0 <= i < s.drop_last().len() && s.drop_last()[i].filename@ == k {
                let i = choose|i: int|
                    0 <= i < s.drop_last().len() && s.drop_last()[i].filename@ == k;
                assert(s[i] == s.drop_last()[i]);
            }
        }
    }
}

/// With distinct filenames, the map sends each record's filename to exactly
/// that record's owner.
proof fn lemma_map_of_index(s: Seq<OwnershipRecord>, i: int)
    requires
        unique_filenames(s),
        0 <= i < s.len(),
    ensures
        map_of(s).contains_key(s[i].filename@),
        map_of(s)[s[i].filename@] == s[i].owner@,
    decreases s.len(),
{
    if i == s.len() - 1 {
    } else {
        assert(unique_filenames(s.drop_last())) by {
            assert(forall|a: int, b: int|
                0 <= a < b < s.drop_last().len() ==> s.drop_last()[a] == s[a]
                    && s.drop_last()[b] == s[b]);
        }
        lemma_map_of_index(s.drop_last(), i);
        assert(s.drop_last()[i] == s[i]);
        assert(s[i].filename@ != s.last().filename@);
    }
}

/// Removing the record at position `i` removes exactly its filename from the
/// map.
proof fn lemma_map_of_remove(s: Seq<OwnershipRecord>, i: int)
    requires
        unique_filenames(s),
        0 <= i < s.len(),
    ensures
        map_of(s.remove(i)) == map_of(s).remove(s[i].filename@),
    decreases s.len(),
{
    let k = s[i].filename@;
    if i == s.len() - 1 {
        assert(s.remove(i) =~= s.drop_last());
        lemma_map_of_contains(s.drop_last(), k);
        assert(forall|j: int|
            0 <= j < s.drop_last().len() ==> #[trigger] s.drop_last()[j].filename@ != k) by {
            assert(forall|j: int| 0 <= j < s.len() - 1 ==> s.drop_last()[j] == s[j]);
        }
        assert(!map_of(s.drop_last()).contains_key(k));
        assert(map_of(s.drop_last()) =~= map_of(s).remove(k));
    } else {
        let t = s.remove(i);
        assert(unique_filenames(s.drop_last())) by {
            assert(forall|a: int, b: int|
                0 <= a < b < s.drop_last().len() ==> s.drop_last()[a] == s[a]
                    && s.drop_last()[b] == s[b]);
        }
        assert(t.last() == s.last());
        assert(t.drop_last() =~= s.drop_last().remove(i));
        lemma_map_of_remove(s.drop_last(), i);
        assert(s.drop_last()[i] == s[i]);
        assert(k != s.last().filename@);
        assert(map_of(t) == map_of(s.drop_last()).remove(k).insert(
            s.last().filename@,
            s.last().owner@,
        ));
        assert(map_of(s.drop_last()).remove(k).insert(s.last().filename@, s.last().owner@)
            =~= map_of(s.drop_last()).insert(s.last().filename@, s.last().owner@).remove(k));
    }
}

/// Distinctness survives removing a record.
proof fn lemma_unique_remove(s: Seq<OwnershipRecord>, i: int)
    requires
        unique_filenames(s),
        0 <= i < s.len(),
    ensures
        unique_filenames(s.remove(i)),
{
    let t = s.remove(i);
    assert(forall|a: int, b: int| 0 <= a < b < t.len() ==> t[a].filename@ != t[b].filename@) by {
        assert(forall|a: int| 0 <= a < i ==> t[a] == s[a]);
        assert(forall|a: int| i <= a < t.len() ==> t[a] == s[a + 1]);
    }
}

/// What `claim_or_verify` decides, as a function of the registry's map.
pub open spec fn claim_decision(
    reg: Map<Seq<char>, CredentialsView>,
    f: Seq<char>,
    c: CredentialsView,
) -> AuthDecision {
    if !reg.contains_key(f) {
        AuthDecision::Authorized { new_owner: true }
    } else if reg[f] == c {
        AuthDecision::Authorized { new_owner: false }
    } else {
        AuthDecision::Denied
    }
}

/// The registry after `claim_or_verify`: an unclaimed filename is claimed for
/// the candidate; a claimed one is left exactly as it was.
pub open spec fn claim_result(
    reg: Map<Seq<char>, CredentialsView>,
    f: Seq<char>,
    c: CredentialsView,
) -> Map<Seq<char>, CredentialsView> {
    if !reg.contains_key(f) {
        reg.insert(f, c)
    } else {
        reg
    }
}

/// The set of all ownership records, keyed by filename.
pub struct Registry {
    records: Vec<OwnershipRecord>,
}

impl View for Registry {
    type V = Map<Seq<char>, CredentialsView>;

    closed spec fn view(&self) -> Map<Seq<char>, CredentialsView> {
        map_of(self.records@)
    }
}

impl Registry {
    /// At most one record per filename.
    pub closed spec fn wf(&self) -> bool {
        unique_filenames(self.records@)
    }

    /// An empty registry: nothing is claimed.
    pub fn new() -> (r: Registry)
        ensures
            r.wf(),
            r@ == Map::<Seq<char>, CredentialsView>::empty(),
    {
        Registry { records: Vec::new() }
    }

    /// The position of the record for `filename`, if any.
    fn find_index(&self, filename: &String) -> (r: Option<usize>)
        ensures
            match r {
                Some(i) => i < self.records@.len() && self.records@[i as int].filename@
                    == filename@,
                None => forall|j: int|
                    0 <= j < self.records@.len() ==> self.records@[j].filename@ != filename@,
            },
    {
        let mut i: usize = 0;
        while i < self.records.len()
            invariant
                i <= self.records@.len(),
                forall|j: int| 0 <= j < i ==> self.records@[j].filename@ != filename@,
            decreases self.records@.len() - i,
        {
            if self.records[i].filename == *filename {
                return Some(i);
            }
            i = i + 1;
        }
        None
    }

    /// The current owner of `filename`, or nothing if it is unclaimed. No side
    /// effect.
    pub fn lookup(&self, filename: &String) -> (r: Option<&Credentials>)
        requires
            self.wf(),
        ensures
            match r {
                Some(c) => self@.contains_key(filename@) && c@ == self@[filename@],
                None => !self@.contains_key(filename@),
            },
    {
        proof {
            lemma_map_of_contains(self.records@, filename@);
        }
        match self.find_index(filename) {
            Some(i) => {
                proof {
                    lemma_map_of_index(self.records@, i as int);
                }
                Some(&self.records[i].owner)
            },
            None => None,
        }
    }

    /// The combined check-and-set step, the sole mutator that grows the
    /// registry: claim an unclaimed filename for the candidate, authorize the
    /// recorded owner, deny anyone else. Decision and update happen in one
    /// call, so no interleaving can grant a filename to two owners.
    pub fn claim_or_verify(&mut self, filename: &String, candidate: &Credentials) -> (d:
        AuthDecision)
        requires
            old(self).wf(),
        ensures
            final(self).wf(),
            d == claim_decision(old(self)@, filename@, candidate@),
            final(self)@ == claim_result(old(self)@, filename@, candidate@),
    {
        proof {
            lemma_map_of_contains(self.records@, filename@);
        }
        match self.find_index(filename) {
            Some(i) => {
                proof {
                    lemma_map_of_index(self.records@, i as int);
                }
                let rec = &self.records[i];
                if rec.owner.username == candidate.username && rec.owner.password
                    == candidate.password {
                    AuthDecision::Authorized { new_owner: false }
                } else {
                    AuthDecision::Denied
                }
            },
            None => {
                let rec = OwnershipRecord {
                    filename: filename.clone(),
                    owner: candidate.duplicate(),
                };
                let ghost before = self.records@;
                self.records.push(rec);
                proof {
                    assert(self.records@.drop_last() =~= before);
                    assert(self@ =~= claim_result(old(self)@, filename@, candidate@));
                }
                AuthDecision::Authorized { new_owner: true }
            },
        }
    }

    /// Drop the record for `filename`, if any: used only to roll back a
    /// brand-new claim whose dependent storage write failed.
    pub fn remove_record(&mut self, filename: &String)
        requires
            old(self).wf(),
        ensures
            final(self).wf(),
            final(self)@ == old(self)@.remove(filename@),
    {
        proof {
            lemma_map_of_contains(self.records@, filename@);
        }
        match self.find_index(filename) {
            Some(i) => {
                proof {
                    lemma_map_of_remove(self.records@, i as int);
                    lemma_unique_remove(self.records@, i as int);
                }
                self.records.remove(i);
            },
            None => {
                proof {
                    assert(self@ =~= old(self)@.remove(filename@));
                }
            },
        }
    }
}

} // verus!
