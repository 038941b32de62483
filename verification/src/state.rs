//! The single authoritative state snapshot owned by the state store, and the
//! cluster list entries derived from cluster ARNs.

use vstd::prelude::*;

verus! {

/// Whether `s` contains a `'/'`.
pub open spec fn has_slash(s: Seq<char>) -> bool {
    exists|i: int| 0 <= i < s.len() && s[i] == '/'
}

/// The part of `s` after its first `'/'`; the empty sequence when `s` holds
/// no `'/'`.
pub open spec fn after_first_slash(s: Seq<char>) -> Seq<char>
    decreases s.len(),
{
    if s.len() == 0 {
        s
    } else if s[0] == '/' {
        s.subrange(1, s.len() as int)
    } else {
        after_first_slash(s.subrange(1, s.len() as int))
    }
}

/// The display name carried by a cluster ARN: the part after the first `'/'`,
/// or the whole ARN when it holds no `'/'` (a malformed ARN is shown as is
/// rather than rejected).
pub open spec fn cluster_name_of(arn: Seq<char>) -> Seq<char> {
    if has_slash(arn) {
        after_first_slash(arn)
    } else {
        arn
    }
}

/// When the first `'/'` of `s` stands at `i`, the part after the first slash
/// is exactly the tail beyond `i`.
proof fn lemma_after_first_slash_at(s: Seq<char>, i: int)
    requires
        0 <= i < s.len(),
        s[i] == '/',
        forall|j: int| 0 <= j < i ==> s[j] != '/',
    ensures
        after_first_slash(s) == s.subrange(i + 1, s.len() as int),
    decreases i,
{
    if i == 0 {
    } else {
        let t = s.subrange(1, s.len() as int);
        lemma_after_first_slash_at(t, i - 1);
        assert(t.subrange(i, t.len() as int) =~= s.subrange(i + 1, s.len() as int));
    }
}

/// One row of the cluster table: the full ARN and the display name derived
/// from it.
#[derive(Debug, Clone, PartialEq)]
pub struct ClusterItem {
    pub arn: String,
    pub name: String,
}

/// The mathematical value of a [`ClusterItem`]: both fields as character
/// sequences.
#[verifier::ext_equal]
pub struct ClusterItemModel {
    pub arn: Seq<char>,
    pub name: Seq<char>,
}

/// The model of the item derived from a given ARN.
pub open spec fn cluster_item_of(arn: Seq<char>) -> ClusterItemModel {
    ClusterItemModel { arn, name: cluster_name_of(arn) }
}

impl View for ClusterItem {
    type V = ClusterItemModel;

    open spec fn view(&self) -> ClusterItemModel {
        ClusterItemModel { arn: self.arn@, name: self.name@ }
    }
}

impl DeepView for ClusterItem {
    type V = ClusterItemModel;

    open spec fn deep_view(&self) -> ClusterItemModel {
        self.view()
    }
}

impl ClusterItem {
    /// Builds the table row for `arn`, deriving the display name after the
    /// first `'/'`. An ARN without a `'/'` keeps its full text as the name,
    /// so a malformed ARN never aborts the session.
    pub fn from(arn: String) -> (item: ClusterItem)
        ensures
            item@ == cluster_item_of(arn@),
    {
        let len = arn.as_str().unicode_len();
        let mut i: usize = 0;
        while i < len && arn.as_str().get_char(i) != '/'
            invariant
                i <= len,
                len == arn@.len(),
                forall|j: int| 0 <= j < i ==> arn@[j] != '/',
            decreases len - i,
        {
            i += 1;
        }
        if i < len {
            let name = arn.as_str().substring_char(i + 1, len).to_owned();
            proof {
                lemma_after_first_slash_at(arn@, i as int);
            }
            ClusterItem { arn, name }
        } else {
            let name = arn.clone();
            proof {
                assert(!has_slash(arn@));
            }
            ClusterItem { arn, name }
        }
    }
}

/// The mathematical value of a [`State`] snapshot.
#[verifier::ext_equal]
pub struct StateModel {
    pub caller_arn: Option<Seq<char>>,
    pub cluster_arns: Seq<Seq<char>>,
    pub context_error: Option<Seq<char>>,
    pub clusters_error: Option<Seq<char>>,
}

/// The state every session starts from: nothing fetched, no errors recorded.
pub open spec fn empty_state_model() -> StateModel {
    StateModel {
        caller_arn: None,
        cluster_arns: Seq::empty(),
        context_error: None,
        clusters_error: None,
    }
}

/// The single shared snapshot of fetched data. The state store holds the only
/// mutable copy; everyone else receives an immutable snapshot taken with
/// [`State::snapshot`]. A failed fetch is recorded per fetch kind in the
/// error fields instead of aborting the session.
#[derive(Debug, PartialEq)]
pub struct State {
    /// The caller identity ARN, once the identity lookup succeeded.
    pub caller_arn: Option<String>,
    /// The ARNs of the listed clusters, replaced wholesale on each fetch.
    pub cluster_arns: Vec<String>,
    /// The message of the last failed identity lookup, cleared on success.
    pub context_error: Option<String>,
    /// The message of the last failed cluster listing, cleared on success.
    pub clusters_error: Option<String>,
}

impl View for State {
    type V = StateModel;

    open spec fn view(&self) -> StateModel {
        StateModel {
            caller_arn: self.caller_arn.deep_view(),
            cluster_arns: self.cluster_arns.deep_view(),
            context_error: self.context_error.deep_view(),
            clusters_error: self.clusters_error.deep_view(),
        }
    }
}

impl DeepView for State {
    type V = StateModel;

    open spec fn deep_view(&self) -> StateModel {
        self.view()
    }
}

impl Default for State {
    /// The empty snapshot published before any action is processed.
    fn default() -> (s: State)
        ensures
            s@ == empty_state_model(),
    {
        let s = State {
            caller_arn: None,
            cluster_arns: Vec::new(),
            context_error: None,
            clusters_error: None,
        };
        proof {
            assert(s@ =~~= empty_state_model());
        }
        s
    }
}

/// Duplicates an optional string; the duplicate is the same value.
pub(crate) fn clone_opt_string(o: &Option<String>) -> (r: Option<String>)
    ensures
        r == *o,
{
    match o {
        Some(s) => Some(s.clone()),
        None => None,
    }
}

/// Duplicates a vector of strings element by element, preserving its value.
pub(crate) fn clone_string_vec(v: &Vec<String>) -> (r: Vec<String>)
    ensures
        r@ == v@,
{
    let mut r: Vec<String> = Vec::new();
    let mut i: usize = 0;
    while i < v.len()
        invariant
            i <= v.len(),
            r@ =~= v@.subrange(0, i as int),
        decreases v.len() - i,
    {
        r.push(v[i].clone());
        i += 1;
    }
    proof {
        assert(r@ =~= v@);
    }
    r
}

impl State {
    /// An immutable copy of this snapshot, as handed to subscribers: the copy
    /// denotes the same state.
    pub fn snapshot(&self) -> (s: State)
        ensures
            s@ == self@,
    {
        let s = State {
            caller_arn: clone_opt_string(&self.caller_arn),
            cluster_arns: clone_string_vec(&self.cluster_arns),
            context_error: clone_opt_string(&self.context_error),
            clusters_error: clone_opt_string(&self.clusters_error),
        };
        proof {
            assert(s@ =~~= self@);
        }
        s
    }
}

} // verus!
