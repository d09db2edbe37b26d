//! FX instances of a track's FX chain: identity, lazy index resolution and
//! queries against an observed chain state.
//!
//! An FX is identified primarily by its GUID (for tracked instances) and
//! secondarily by its index in the chain, which can go stale when the chain
//! is reordered; the index is therefore resolved lazily against the
//! currently observed state of the chain, handed in as a plain-value
//! snapshot.

use vstd::prelude::*;

verus! {

/// A globally unique identifier, as two plain halves.
#[derive(Clone, Copy, PartialEq, Eq, Structural, Debug, Hash)]
pub struct Guid {
    pub hi: u64,
    pub lo: u64,
}

impl Guid {
    /// Creates the identifier from its two halves.
    pub fn new(hi: u64, lo: u64) -> (r: Guid)
        ensures
            r == (Guid { hi, lo }),
    {
        Guid { hi, lo }
    }
}

/// A track, identified by its GUID.
#[derive(Clone, Copy, PartialEq, Eq, Structural, Debug, Hash)]
pub struct Track {
    pub guid: Guid,
}

impl Track {
    /// Creates the track handle for the given GUID.
    pub fn new(guid: Guid) -> (r: Track)
        ensures
            r == (Track { guid }),
    {
        Track { guid }
    }
}

/// One FX chain of a track: either the normal chain or the input-FX chain.
#[derive(Clone, Copy, PartialEq, Eq, Structural, Debug, Hash)]
pub struct FxChain {
    pub track: Track,
    pub is_input_fx: bool,
}

/// The observed state of one FX slot of a chain.
#[derive(Clone, Copy, PartialEq, Eq, Structural, Debug)]
pub struct FxSnapshot {
    /// The GUID of the FX in this slot.
    pub guid: Guid,
    /// The number of parameters the FX has.
    pub param_count: u32,
    /// Whether the FX is enabled.
    pub enabled: bool,
}

/// The currently observed state of one FX chain: whether the chain (and its
/// track) is available at all, and the FX in it, in chain order.
pub struct FxChainView {
    pub available: bool,
    pub fxs: Vec<FxSnapshot>,
}

/// A chain small enough that every slot index fits the host's index type:
/// a machine limit every real chain satisfies.
pub open spec fn chain_view_wf(chain: FxChainView) -> bool {
    chain.fxs@.len() <= 0xFFFFFFFF
}

/// The index of the first FX with the given GUID in the observed chain, if
/// any.
pub open spec fn chain_find_guid(fxs: Seq<FxSnapshot>, guid: Guid) -> Option<int>
    decreases fxs.len(),
{
    if fxs.len() == 0 {
        None
    } else if fxs[0].guid == guid {
        Some(0int)
    } else {
        match chain_find_guid(fxs.drop_first(), guid) {
            Some(i) => Some(i + 1),
            None => None,
        }
    }
}

/// A found chain index lies within the chain and carries the GUID searched
/// for.
pub proof fn lemma_chain_find_guid_in_range(fxs: Seq<FxSnapshot>, guid: Guid)
    ensures
        match chain_find_guid(fxs, guid) {
            Some(i) => 0 <= i < fxs.len() && fxs[i].guid == guid,
            None => true,
        },
    decreases fxs.len(),
{
    if fxs.len() > 0 && !(fxs[0].guid == guid) {
        lemma_chain_find_guid_in_range(fxs.drop_first(), guid);
    }
}

/// Offset added to an FX index to form the query index of an input-FX-chain
/// slot, as the host's API encodes it.
pub const FX_QUERY_INDEX_INPUT_FX_OFFSET: i32 = 0x1000000;

/// Combines an FX index and the input-FX flag into the host's query index
/// encoding: input-chain slots live at `index + 0x1000000`.
pub fn get_fx_query_index(index: u32, is_input_fx: bool) -> (r: i32)
    requires
        index < 0x1000000,
    ensures
        r == index + if is_input_fx {
            0x1000000int
        } else {
            0int
        },
{
    let addend: i32 = if is_input_fx {
        FX_QUERY_INDEX_INPUT_FX_OFFSET
    } else {
        0
    };
    addend + (index as i32)
}

/// Splits a host query index back into the FX index and the input-FX flag.
pub fn get_index_from_query_index(query_index: i32) -> (r: (u32, bool))
    requires
        0 <= query_index < 0x2000000,
    ensures
        r.1 == (query_index >= 0x1000000),
        r.1 ==> r.0 == query_index - 0x1000000,
        !r.1 ==> r.0 == query_index,
{
    if query_index >= 0x1000000 {
        ((query_index - 0x1000000) as u32, true)
    } else {
        (query_index as u32, false)
    }
}

/// Combining an index and flag into a query index and splitting it again
/// yields the index and flag back.
pub proof fn lemma_query_index_round_trip(index: u32, is_input_fx: bool)
    requires
        index < 0x1000000,
    ensures
        ({
            let q = index + if is_input_fx {
                0x1000000int
            } else {
                0int
            };
            0 <= q < 0x2000000 && (q >= 0x1000000) == is_input_fx && (if is_input_fx {
                q - 0x1000000
            } else {
                q
            }) == index
        }),
{
}

/// An FX instance of a track's chain. For GUID-tracked instances the GUID is
/// the primary identifier and the index a lazily resolved secondary one; for
/// untracked instances the index is the primary identifier.
#[derive(Clone, Copy, Eq, Debug)]
pub struct Fx {
    track: Track,
    guid: Option<Guid>,
    index: Option<u32>,
    is_input_fx: bool,
}

/// Whether two FX handles denote the same FX: same track and chain, then by
/// GUID if both are GUID-tracked, else by index.
pub closed spec fn fx_eq_spec(a: Fx, b: Fx) -> bool {
    if a.track != b.track || a.is_input_fx != b.is_input_fx {
        false
    } else {
        match (a.guid, b.guid) {
            (Some(ga), Some(gb)) => ga == gb,
            _ => a.index == b.index,
        }
    }
}

impl PartialEq for Fx {
    fn eq(&self, other: &Fx) -> (r: bool)
        ensures
            r == fx_eq_spec(*self, *other),
    {
        if !(self.track == other.track) || self.is_input_fx != other.is_input_fx {
            return false;
        }
        match (self.guid, other.guid) {
            (Some(ga), Some(gb)) => ga == gb,
            _ => match (self.index, other.index) {
                (Some(ia), Some(ib)) => ia == ib,
                (None, None) => true,
                _ => false,
            },
        }
    }
}

impl vstd::std_specs::cmp::PartialEqSpecImpl for Fx {
    open spec fn obeys_eq_spec() -> bool {
        true
    }

    open spec fn eq_spec(&self, other: &Fx) -> bool {
        fx_eq_spec(*self, *other)
    }
}

impl Fx {
    /// The track this FX belongs to.
    pub closed spec fn track_spec(self) -> Track {
        self.track
    }

    /// The GUID this FX is tracked by, if any.
    pub closed spec fn guid_spec(self) -> Option<Guid> {
        self.guid
    }

    /// The currently remembered chain index, if any.
    pub closed spec fn index_spec(self) -> Option<u32> {
        self.index
    }

    /// Whether this FX lives in the input-FX chain.
    pub closed spec fn is_input_fx_spec(self) -> bool {
        self.is_input_fx
    }

    /// Whether the remembered index is currently valid: an index is
    /// remembered, the chain is available, and for a GUID-tracked instance
    /// the slot at that index carries this FX's GUID.
    pub closed spec fn is_loaded_spec(self, chain: FxChainView) -> bool {
        &&& self.index is Some
        &&& chain.available
        &&& match self.guid {
            Option::None => true,
            Option::Some(g) => {
                let i = self.index->Some_0 as int;
                0 <= i < chain.fxs@.len() && chain.fxs@[i].guid == g
            },
        }
    }

    /// Whether this FX can be resolved against the observed chain: its index
    /// is valid, or its GUID is found in the available chain.
    pub open spec fn is_loadable_spec(self, chain: FxChainView) -> bool {
        self.is_loaded_spec(chain) || (chain.available && self.guid_spec() is Some
            && chain_find_guid(chain.fxs@, self.guid_spec()->Some_0) is Some)
    }

    /// The index this FX resolves to after an attempted reload against the
    /// observed chain: the remembered index if still valid, the index found
    /// by GUID if the reload succeeds, and otherwise the remembered index
    /// (possibly stale, possibly none) unchanged.
    pub open spec fn index_after_load_spec(self, chain: FxChainView) -> Option<u32> {
        if self.is_loaded_spec(chain) {
            self.index_spec()
        } else if chain.available && self.guid_spec() is Some {
            match chain_find_guid(chain.fxs@, self.guid_spec()->Some_0) {
                Some(i) => Some(i as u32),
                None => self.index_spec(),
            }
        } else {
            self.index_spec()
        }
    }

    /// The main constructor, for a GUID in hand: the index is determined
    /// lazily.
    pub fn from_guid_lazy_index(track: Track, guid: Guid, is_input_fx: bool) -> (r: Fx)
        ensures
            r.track_spec() == track,
            r.guid_spec() == Some(guid),
            r.index_spec() is None,
            r.is_input_fx_spec() == is_input_fx,
    {
        Fx { track, guid: Some(guid), index: None, is_input_fx }
    }

    /// The constructor for a GUID and an index that are both known to be
    /// current.
    pub fn from_guid_and_index(track: Track, guid: Guid, index: u32, is_input_fx: bool) -> (r: Fx)
        ensures
            r.track_spec() == track,
            r.guid_spec() == Some(guid),
            r.index_spec() == Some(index),
            r.is_input_fx_spec() == is_input_fx,
    {
        Fx { track, guid: Some(guid), index: Some(index), is_input_fx }
    }

    /// The GUID this FX is tracked by, if any.
    pub fn get_guid(&self) -> (r: Option<Guid>)
        ensures
            r == self.guid_spec(),
    {
        self.guid
    }

    /// The track this FX belongs to.
    pub fn get_track(&self) -> (r: Track)
        ensures
            r == self.track_spec(),
    {
        self.track
    }

    /// Whether this FX lives in the input-FX chain.
    pub fn is_input_fx(&self) -> (r: bool)
        ensures
            r == self.is_input_fx_spec(),
    {
        self.is_input_fx
    }

    /// The chain this FX lives in: the track's input-FX chain or its normal
    /// chain.
    pub fn get_chain(&self) -> (r: FxChain)
        ensures
            r == (FxChain { track: self.track_spec(), is_input_fx: self.is_input_fx_spec() }),
    {
        FxChain { track: self.track, is_input_fx: self.is_input_fx }
    }

    /// Whether the remembered index is currently valid.
    fn is_loaded_and_at_correct_index(&self, chain: &FxChainView) -> (r: bool)
        ensures
            r == self.is_loaded_spec(*chain),
    {
        let index = match self.index {
            None => {
                return false;
            },
            Some(index) => index,
        };
        if !chain.available {
            return false;
        }
        match self.guid {
            None => true,
            Some(guid) => {
                let i = index as usize;
                i < chain.fxs.len() && chain.fxs[i].guid == guid
            },
        }
    }

    /// Attempts to resolve this FX's index by looking its GUID up in the
    /// observed chain. Succeeds exactly when the chain is available, the FX
    /// is GUID-tracked and the GUID is found; the found index is remembered
    /// then, and nothing changes otherwise.
    fn load_by_guid(&mut self, chain: &FxChainView) -> (r: bool)
        requires
            chain_view_wf(*chain),
        ensures
            final(self).track_spec() == old(self).track_spec(),
            final(self).guid_spec() == old(self).guid_spec(),
            final(self).is_input_fx_spec() == old(self).is_input_fx_spec(),
            r == (chain.available && old(self).guid_spec() is Some && chain_find_guid(
                chain.fxs@,
                old(self).guid_spec()->Some_0,
            ) is Some),
            r ==> final(self).index_spec() == Some(
                chain_find_guid(chain.fxs@, old(self).guid_spec()->Some_0)->Some_0 as u32,
            ),
            !r ==> final(self).index_spec() == old(self).index_spec(),
    {
        if !chain.available {
            return false;
        }
        let guid = match self.guid {
            None => {
                return false;
            },
            Some(guid) => guid,
        };
        let n = chain.fxs.len();
        let mut i: usize = 0;
        proof {
            assert(chain.fxs@.skip(0) =~= chain.fxs@);
        }
        while i < n
            invariant
                n == chain.fxs@.len(),
                0 <= i <= n,
                old(self).guid_spec() == Some(guid),
                chain.available,
                chain_view_wf(*chain),
                *self == *old(self),
                chain_find_guid(chain.fxs@, guid) == match chain_find_guid(
                    chain.fxs@.skip(i as int),
                    guid,
                ) {
                    Some(j) => Some(j + i),
                    None => None,
                },
            decreases n - i,
        {
            proof {
                assert(chain.fxs@.skip(i as int)[0] == chain.fxs@[i as int]);
                assert(chain.fxs@.skip(i as int).drop_first() =~= chain.fxs@.skip(i + 1));
            }
            if chain.fxs[i].guid == guid {
                proof {
                    assert(chain_find_guid(chain.fxs@.skip(i as int), guid) == Some(0int));
                    assert(chain_find_guid(chain.fxs@, guid) == Some(i as int));
                }
                self.index = Some(i as u32);
                return true;
            }
            proof {
                assert(chain_find_guid(chain.fxs@.skip(i as int), guid) == match chain_find_guid(
                    chain.fxs@.skip(i + 1),
                    guid,
                ) {
                    Some(j) => Some(j + 1),
                    None => None,
                });
            }
            i = i + 1;
        }
        proof {
            assert(chain.fxs@.skip(n as int) =~= Seq::<FxSnapshot>::empty());
        }
        false
    }

    /// Resolves the index against the observed chain if the remembered one
    /// is stale. The FX must be resolvable: an unloadable FX is a
    /// programming error, excluded by contract.
    fn load_if_necessary_or_complain(&mut self, chain: &FxChainView)
        requires
            chain_view_wf(*chain),
            old(self).is_loadable_spec(*chain),
        ensures
            final(self).track_spec() == old(self).track_spec(),
            final(self).guid_spec() == old(self).guid_spec(),
            final(self).is_input_fx_spec() == old(self).is_input_fx_spec(),
            final(self).index_spec() == old(self).index_after_load_spec(*chain),
            final(self).is_loaded_spec(*chain) || final(self).guid_spec() is None,
    {
        proof {
            lemma_chain_find_guid_in_range(
                chain.fxs@,
                if old(self).guid_spec() is Some {
                    old(self).guid_spec()->Some_0
                } else {
                    Guid { hi: 0, lo: 0 }
                },
            );
        }
        if !self.is_loaded_and_at_correct_index(chain) {
            let loaded = self.load_by_guid(chain);
            proof {
                assert(loaded);
            }
        }
    }

    /// The FX's current index in its chain, resolving it against the
    /// observed chain first if the remembered one is stale. The index must
    /// be determinable: otherwise it is a programming error, excluded by
    /// contract.
    pub fn get_index(&mut self, chain: &FxChainView) -> (r: u32)
        requires
            chain_view_wf(*chain),
            old(self).index_after_load_spec(*chain) is Some,
        ensures
            final(self).track_spec() == old(self).track_spec(),
            final(self).guid_spec() == old(self).guid_spec(),
            final(self).is_input_fx_spec() == old(self).is_input_fx_spec(),
            final(self).index_spec() == old(self).index_after_load_spec(*chain),
            r == old(self).index_after_load_spec(*chain)->Some_0,
    {
        if !self.is_loaded_and_at_correct_index(chain) {
            self.load_by_guid(chain);
        }
        match self.index {
            Some(index) => index,
            None => {
                proof {
                    assert(false);
                }
                0
            },
        }
    }

    /// The host's query index for this FX: its chain index, offset when it
    /// lives in the input-FX chain.
    pub fn get_query_index(&mut self, chain: &FxChainView) -> (r: i32)
        requires
            chain_view_wf(*chain),
            old(self).index_after_load_spec(*chain) is Some,
            old(self).index_after_load_spec(*chain)->Some_0 < 0x1000000,
        ensures
            final(self).track_spec() == old(self).track_spec(),
            final(self).guid_spec() == old(self).guid_spec(),
            final(self).is_input_fx_spec() == old(self).is_input_fx_spec(),
            final(self).index_spec() == old(self).index_after_load_spec(*chain),
            r == old(self).index_after_load_spec(*chain)->Some_0 + if old(
                self,
            ).is_input_fx_spec() {
                0x1000000int
            } else {
                0int
            },
    {
        let index = self.get_index(chain);
        get_fx_query_index(index, self.is_input_fx)
    }

    /// The number of parameters the FX at the resolved index currently has
    /// in the observed chain, or zero when the resolved index points outside
    /// the chain.
    pub fn get_parameter_count(&mut self, chain: &FxChainView) -> (r: u32)
        requires
            chain_view_wf(*chain),
            old(self).is_loadable_spec(*chain),
        ensures
            final(self).track_spec() == old(self).track_spec(),
            final(self).guid_spec() == old(self).guid_spec(),
            final(self).is_input_fx_spec() == old(self).is_input_fx_spec(),
            final(self).index_spec() == old(self).index_after_load_spec(*chain),
            r == {
                let i = old(self).index_after_load_spec(*chain)->Some_0 as int;
                if 0 <= i < chain.fxs@.len() {
                    chain.fxs@[i].param_count
                } else {
                    0u32
                }
            },
    {
        self.load_if_necessary_or_complain(chain);
        let index = match self.index {
            Some(index) => index,
            None => {
                proof {
                    assert(false);
                }
                0
            },
        };
        let i = index as usize;
        if i < chain.fxs.len() {
            chain.fxs[i].param_count
        } else {
            0
        }
    }

    /// Whether the FX at the resolved index is currently enabled in the
    /// observed chain; an index outside the chain reads as disabled.
    pub fn is_enabled(&mut self, chain: &FxChainView) -> (r: bool)
        requires
            chain_view_wf(*chain),
            old(self).index_after_load_spec(*chain) is Some,
        ensures
            final(self).track_spec() == old(self).track_spec(),
            final(self).guid_spec() == old(self).guid_spec(),
            final(self).is_input_fx_spec() == old(self).is_input_fx_spec(),
            final(self).index_spec() == old(self).index_after_load_spec(*chain),
            r == {
                let i = old(self).index_after_load_spec(*chain)->Some_0 as int;
                0 <= i < chain.fxs@.len() && chain.fxs@[i].enabled
            },
    {
        let index = self.get_index(chain);
        let i = index as usize;
        i < chain.fxs.len() && chain.fxs[i].enabled
    }

    /// A handle to the parameter with the given index of this FX.
    pub fn get_parameter_by_index(&self, index: u32) -> (r: FxParameter)
        ensures
            r == (FxParameter { fx: *self, index }),
    {
        FxParameter { fx: *self, index }
    }

    /// Handles to all parameters of this FX, in index order, as the observed
    /// chain currently reports them.
    pub fn get_parameters(&mut self, chain: &FxChainView) -> (r: Vec<FxParameter>)
        requires
            chain_view_wf(*chain),
            old(self).is_loadable_spec(*chain),
        ensures
            final(self).track_spec() == old(self).track_spec(),
            final(self).guid_spec() == old(self).guid_spec(),
            final(self).is_input_fx_spec() == old(self).is_input_fx_spec(),
            final(self).index_spec() == old(self).index_after_load_spec(*chain),
            r@.len() == {
                let i = old(self).index_after_load_spec(*chain)->Some_0 as int;
                if 0 <= i < chain.fxs@.len() {
                    chain.fxs@[i].param_count as int
                } else {
                    0int
                }
            },
            forall|k: int|
                0 <= k < r@.len() ==> #[trigger] r@[k] == (FxParameter {
                    fx: *final(self),
                    index: k as u32,
                }),
    {
        let count = self.get_parameter_count(chain);
        let ghost loaded = *self;
        let mut r: Vec<FxParameter> = Vec::new();
        let mut k: u32 = 0;
        while k < count
            invariant
                0 <= k <= count,
                r@.len() == k,
                forall|j: int|
                    0 <= j < k ==> #[trigger] r@[j] == (FxParameter {
                        fx: *self,
                        index: j as u32,
                    }),
                *self == loaded,
                loaded.track_spec() == old(self).track_spec(),
                loaded.guid_spec() == old(self).guid_spec(),
                loaded.is_input_fx_spec() == old(self).is_input_fx_spec(),
                loaded.index_spec() == old(self).index_after_load_spec(*chain),
            decreases count - k,
        {
            let p = self.get_parameter_by_index(k);
            r.push(p);
            k = k + 1;
        }
        r
    }

    /// Whether this FX currently exists in the observed chain: its
    /// remembered index is valid, or it can be resolved by GUID.
    pub fn is_available(&mut self, chain: &FxChainView) -> (r: bool)
        requires
            chain_view_wf(*chain),
        ensures
            final(self).track_spec() == old(self).track_spec(),
            final(self).guid_spec() == old(self).guid_spec(),
            final(self).is_input_fx_spec() == old(self).is_input_fx_spec(),
            r == old(self).is_loadable_spec(*chain),
            r ==> final(self).index_spec() == old(self).index_after_load_spec(*chain),
            !r ==> final(self).index_spec() == old(self).index_spec(),
    {
        if self.is_loaded_and_at_correct_index(chain) {
            true
        } else {
            self.load_by_guid(chain)
        }
    }
}


/// The index of the first occurrence of a character, if any.
pub open spec fn find_char(s: Seq<char>, c: char) -> Option<int>
    decreases s.len(),
{
    if s.len() == 0 {
        None
    } else if s[0] == c {
        Some(0int)
    } else {
        match find_char(s.drop_first(), c) {
            Some(i) => Some(i + 1),
            None => None,
        }
    }
}

/// The number of leading spaces of a string.
pub open spec fn leading_spaces(s: Seq<char>) -> int
    decreases s.len(),
{
    if s.len() > 0 && s[0] == ' ' {
        1 + leading_spaces(s.drop_first())
    } else {
        0
    }
}

/// The leading-space count is witnessed by spaces up to an index followed
/// by a non-space (or the end).
pub proof fn lemma_leading_spaces_of(s: Seq<char>, k: int)
    requires
        0 <= k <= s.len(),
        forall|j: int| 0 <= j < k ==> s[j] == ' ',
        k < s.len() ==> s[k] != ' ',
    ensures
        leading_spaces(s) == k,
    decreases k,
{
    if k > 0 {
        lemma_leading_spaces_of(s.drop_first(), k - 1);
    }
}

/// A position whose character matches, with no match before it, is the
/// position the search finds.
pub proof fn lemma_find_char_of(s: Seq<char>, c: char, i: int)
    requires
        0 <= i < s.len(),
        s[i] == c,
        forall|j: int| 0 <= j < i ==> s[j] != c,
    ensures
        find_char(s, c) == Some(i),
    decreases i,
{
    if i > 0 {
        assert(s.drop_first()[i - 1] == s[i]);
        assert forall|j: int| 0 <= j < i - 1 implies s.drop_first()[j] != c by {
            assert(s.drop_first()[j] == s[j + 1]);
        }
        lemma_find_char_of(s.drop_first(), c, i - 1);
    }
}

/// A string without the character is one the search finds nothing in.
pub proof fn lemma_find_char_none(s: Seq<char>, c: char)
    requires
        forall|j: int| 0 <= j < s.len() ==> s[j] != c,
    ensures
        find_char(s, c) is None,
    decreases s.len(),
{
    if s.len() > 0 {
        assert forall|j: int| 0 <= j < s.drop_first().len() implies s.drop_first()[j] != c by {
            assert(s.drop_first()[j] == s[j + 1]);
        }
        lemma_find_char_none(s.drop_first(), c);
    }
}

/// The absolute index of the first occurrence of a character within the
/// window `from..to` of the line, if any.
fn find_char_in_window(line: &str, c: char, from: usize, to: usize) -> (r: Option<usize>)
    requires
        from <= to <= line@.len(),
    ensures
        match r {
            Some(i) => from <= i < to && find_char(line@.subrange(from as int, to as int), c)
                == Some(i - from),
            None => find_char(line@.subrange(from as int, to as int), c) is None,
        },
{
    let ghost window = line@.subrange(from as int, to as int);
    let mut i: usize = from;
    while i < to
        invariant
            from <= i <= to <= line@.len(),
            window == line@.subrange(from as int, to as int),
            forall|j: int| from <= j < i ==> line@[j] != c,
        decreases to - i,
    {
        if line.get_char(i) == c {
            proof {
                assert(window[i - from] == line@[i as int]);
                assert forall|j: int| 0 <= j < i - from implies window[j] != c by {
                    assert(window[j] == line@[from + j]);
                }
                lemma_find_char_of(window, c, i - from);
            }
            return Some(i);
        }
        i = i + 1;
    }
    proof {
        assert forall|j: int| 0 <= j < window.len() implies window[j] != c by {
            assert(window[j] == line@[from + j]);
        }
        lemma_find_char_none(window, c);
    }
    None
}

/// The chunk type expression of a tag-chunk first line: what stands between
/// the leading `<` and the first space.
pub open spec fn fx_line_type_expression(s: Seq<char>) -> Seq<char> {
    let start: int = if s.len() > 0 && s[0] == '<' {
        1
    } else {
        0
    };
    let rest = s.skip(start);
    match find_char(rest, ' ') {
        Some(i) => rest.take(i),
        None => rest,
    }
}

/// The content of the first double-quoted segment of the line, or nothing
/// when the line has no complete quoted segment.
pub open spec fn fx_line_quoted(s: Seq<char>) -> Seq<char> {
    match find_char(s, '"') {
        Some(q1) => {
            let rest = s.skip(q1 + 1);
            match find_char(rest, '"') {
                Some(q2) => rest.take(q2),
                None => Seq::empty(),
            }
        },
        None => Seq::empty(),
    }
}

/// The sub-type expression: what stands in the quoted segment before the
/// first colon, or nothing when the quoted segment has no colon.
pub open spec fn fx_line_sub_type_expression(s: Seq<char>) -> Seq<char> {
    let q = fx_line_quoted(s);
    match find_char(q, ':') {
        Some(c) => q.take(c),
        None => Seq::empty(),
    }
}

/// The effect name: what stands in the quoted segment after the first colon
/// (and one space after it, if present), up to a ` (` that opens the vendor
/// part, if there is one; nothing when the quoted segment has no colon.
pub open spec fn fx_line_effect_name(s: Seq<char>) -> Seq<char> {
    let q = fx_line_quoted(s);
    match find_char(q, ':') {
        Some(c) => {
            let rest = q.skip(c + 1);
            let name = if rest.len() > 0 && rest[0] == ' ' {
                rest.drop_first()
            } else {
                rest
            };
            match find_char(name, '(') {
                Some(p) => if p >= 1 && name[p - 1] == ' ' {
                    name.take(p - 1)
                } else {
                    name
                },
                None => name,
            }
        },
        None => Seq::empty(),
    }
}

/// The vendor name: what stands in the quoted segment between the first
/// parenthesis pair, or nothing when there is none.
pub open spec fn fx_line_vendor_name(s: Seq<char>) -> Seq<char> {
    let q = fx_line_quoted(s);
    match find_char(q, '(') {
        Some(p) => {
            let rest = q.skip(p + 1);
            match find_char(rest, ')') {
                Some(e) => rest.take(e),
                None => Seq::empty(),
            }
        },
        None => Seq::empty(),
    }
}

/// The file name: the first space-separated token after the closing quote,
/// or nothing when the line has no complete quoted segment.
pub open spec fn fx_line_file_name(s: Seq<char>) -> Seq<char> {
    match find_char(s, '"') {
        Some(q1) => {
            let rest = s.skip(q1 + 1);
            match find_char(rest, '"') {
                Some(q2) => {
                    let after = rest.skip(q2 + 1);
                    let token = after.skip(leading_spaces(after));
                    match find_char(token, ' ') {
                        Some(e) => token.take(e),
                        None => token,
                    }
                },
                None => Seq::empty(),
            }
        },
        None => Seq::empty(),
    }
}


/// An empty field value.
fn fx_info_empty_field() -> (r: String)
    ensures
        r@ == Seq::<char>::empty(),
{
    let r = String::from_str("");
    proof {
        reveal_strlit("");
        assert(r@ =~= Seq::<char>::empty());
    }
    r
}

/// Information about an FX, parsed from the first line of its tag chunk
/// (for example `<VST "VSTi: ReaSynth (Cockos)" reasynth.dll 0 ""`).
pub struct FxInfo {
    /// The name inside the quoted segment after the colon, without the
    /// trailing vendor parenthesis: for example `ReaSynth`. Empty when the
    /// quoted segment has no colon.
    pub effect_name: String,
    /// The token after the opening angle bracket: for example `VST` or
    /// `JS`.
    pub type_expression: String,
    /// The part of the quoted segment before the colon: for example `VSTi`.
    /// Empty when the quoted segment has no colon.
    pub sub_type_expression: String,
    /// The part of the quoted segment between parentheses: for example
    /// `Cockos`. Empty when the quoted segment has none.
    pub vendor_name: String,
    /// The first token after the closing quote: for example
    /// `reasynth.dll`.
    pub file_name: String,
}

impl FxInfo {
    /// Parses the first line of an FX tag chunk into its parts.
    #[verifier::rlimit(100)]
    #[verifier::spinoff_prover]
    pub fn new(first_line_of_tag_chunk: &str) -> (r: FxInfo)
        requires
            first_line_of_tag_chunk.is_ascii(),
        ensures
            r.type_expression@ == fx_line_type_expression(first_line_of_tag_chunk@),
            r.sub_type_expression@ == fx_line_sub_type_expression(first_line_of_tag_chunk@),
            r.effect_name@ == fx_line_effect_name(first_line_of_tag_chunk@),
            r.vendor_name@ == fx_line_vendor_name(first_line_of_tag_chunk@),
            r.file_name@ == fx_line_file_name(first_line_of_tag_chunk@),
    {
        let line = first_line_of_tag_chunk;
        let ghost sv = line@;
        let n = line.unicode_len();
        let start: usize = if n > 0 && line.get_char(0) == '<' {
            1
        } else {
            0
        };
        let type_expression = match find_char_in_window(line, ' ', start, n) {
            Some(i) => {
                proof {
                    assert(sv.subrange(start as int, n as int) =~= sv.skip(start as int));
                    assert(sv.skip(start as int).take(i - start) =~= sv.subrange(
                        start as int,
                        i as int,
                    ));
                }
                String::from_str(line.substring_ascii(start, i))
            },
            None => {
                proof {
                    assert(sv.subrange(start as int, n as int) =~= sv.skip(start as int));
                }
                String::from_str(line.substring_ascii(start, n))
            },
        };
        proof {
            assert(type_expression@ == fx_line_type_expression(sv));
        }
        let quote_bounds: Option<(usize, usize)> = match find_char_in_window(line, '"', 0, n) {
            Some(q1) => {
                proof {
                    assert(sv.subrange(0, n as int) =~= sv);
                    assert(sv.subrange(q1 + 1, n as int) =~= sv.skip(q1 + 1));
                }
                match find_char_in_window(line, '"', q1 + 1, n) {
                    Some(q2) => {
                        proof {
                            assert(sv.skip(q1 + 1).take(q2 - (q1 + 1)) =~= sv.subrange(
                                q1 + 1,
                                q2 as int,
                            ));
                            assert(fx_line_quoted(sv) == sv.subrange(q1 + 1, q2 as int));
                        }
                        Some((q1, q2))
                    },
                    None => None,
                }
            },
            None => {
                proof {
                    assert(sv.subrange(0, n as int) =~= sv);
                }
                None
            },
        };
        proof {
            match quote_bounds {
                Some((q1, q2)) => {
                    assert(fx_line_quoted(sv) == sv.subrange(q1 + 1, q2 as int));
                },
                None => {
                    assert(fx_line_quoted(sv) == Seq::<char>::empty());
                },
            }
        }
        let (sub_type_expression, effect_name) = match quote_bounds {
            Some((q1, q2)) => {
                let ghost q = sv.subrange(q1 + 1, q2 as int);
                match find_char_in_window(line, ':', q1 + 1, q2) {
                    Some(c_abs) => {
                        let ghost c_rel = c_abs - (q1 + 1);
                        let sub = String::from_str(line.substring_ascii(q1 + 1, c_abs));
                        proof {
                            assert(q.take(c_rel as int) =~= sv.subrange(q1 + 1, c_abs as int));
                            assert(sub@ == fx_line_sub_type_expression(sv));
                        }
                        let mut name_start = c_abs + 1;
                        if name_start < q2 && line.get_char(name_start) == ' ' {
                            name_start = name_start + 1;
                        }
                        proof {
                            let rest = q.skip(c_rel + 1);
                            assert(rest =~= sv.subrange(c_abs + 1, q2 as int));
                            if rest.len() > 0 {
                                assert(rest[0] == sv[c_abs + 1]);
                            }
                            let name = if rest.len() > 0 && rest[0] == ' ' {
                                rest.drop_first()
                            } else {
                                rest
                            };
                            assert(name =~= sv.subrange(name_start as int, q2 as int));
                            assert(sv.subrange(name_start as int, q2 as int) == name);
                        }
                        let name_end = match find_char_in_window(line, '(', name_start, q2) {
                            Some(p_abs) => {
                                if p_abs >= name_start + 1 && line.get_char(p_abs - 1) == ' ' {
                                    p_abs - 1
                                } else {
                                    q2
                                }
                            },
                            None => q2,
                        };
                        let name_string = String::from_str(
                            line.substring_ascii(name_start, name_end),
                        );
                        proof {
                            let name = sv.subrange(name_start as int, q2 as int);
                            match find_char(name, '(') {
                                Some(p) => {
                                    if p >= 1 && name[p - 1] == ' ' {
                                        assert(name.take(p - 1) =~= sv.subrange(
                                            name_start as int,
                                            name_start + p - 1,
                                        ));
                                    }
                                },
                                None => {},
                            }
                            assert(name_string@ == fx_line_effect_name(sv));
                        }
                        (sub, name_string)
                    },
                    None => {
                        let sub = fx_info_empty_field();
                        let name = fx_info_empty_field();
                        proof {
                            assert(sub@ == fx_line_sub_type_expression(sv));
                            assert(name@ == fx_line_effect_name(sv));
                        }
                        (sub, name)
                    },
                }
            },
            None => {
                let sub = fx_info_empty_field();
                let name = fx_info_empty_field();
                proof {
                    assert(sub@ == fx_line_sub_type_expression(sv));
                    assert(name@ == fx_line_effect_name(sv));
                }
                (sub, name)
            },
        };
        let vendor_name = match quote_bounds {
            Some((q1, q2)) => {
                let ghost q = sv.subrange(q1 + 1, q2 as int);
                match find_char_in_window(line, '(', q1 + 1, q2) {
                    Some(p_abs) => {
                        proof {
                            assert(q.skip(p_abs - (q1 + 1) + 1) =~= sv.subrange(
                                p_abs + 1,
                                q2 as int,
                            ));
                        }
                        match find_char_in_window(line, ')', p_abs + 1, q2) {
                            Some(e_abs) => {
                                proof {
                                    assert(sv.subrange(p_abs + 1, q2 as int).take(
                                        e_abs - (p_abs + 1),
                                    ) =~= sv.subrange(p_abs + 1, e_abs as int));
                                }
                                String::from_str(line.substring_ascii(p_abs + 1, e_abs))
                            },
                            None => fx_info_empty_field(),
                        }
                    },
                    None => fx_info_empty_field(),
                }
            },
            None => fx_info_empty_field(),
        };
        proof {
            assert(vendor_name@ == fx_line_vendor_name(sv));
        }
        let file_name = match quote_bounds {
            Some((q1, q2)) => {
                let ghost after = sv.skip(q2 + 1);
                proof {
                    assert(sv.skip(q1 + 1).skip(q2 - (q1 + 1) + 1) =~= after);
                }
                let mut tok_start = q2 + 1;
                while tok_start < n && line.get_char(tok_start) == ' '
                    invariant
                        sv == line@,
                        line.is_ascii(),
                        n == sv.len(),
                        q2 + 1 <= tok_start <= n,
                        forall|j: int| q2 + 1 <= j < tok_start ==> sv[j] == ' ',
                    decreases n - tok_start,
                {
                    tok_start = tok_start + 1;
                }
                proof {
                    assert forall|j: int| 0 <= j < tok_start - (q2 + 1) implies after[j]
                        == ' ' by {
                        assert(after[j] == sv[q2 + 1 + j]);
                    }
                    if tok_start < n {
                        assert(after[tok_start - (q2 + 1)] == sv[tok_start as int]);
                    }
                    lemma_leading_spaces_of(after, tok_start - (q2 + 1));
                    assert(after.skip(leading_spaces(after)) =~= sv.subrange(
                        tok_start as int,
                        n as int,
                    ));
                }
                let tok_end = match find_char_in_window(line, ' ', tok_start, n) {
                    Some(e) => {
                        proof {
                            assert(sv.subrange(tok_start as int, n as int).take(e - tok_start)
                                =~= sv.subrange(tok_start as int, e as int));
                        }
                        e
                    },
                    None => n,
                };
                String::from_str(line.substring_ascii(tok_start, tok_end))
            },
            None => fx_info_empty_field(),
        };
        proof {
            assert(file_name@ == fx_line_file_name(sv));
        }
        FxInfo { effect_name, type_expression, sub_type_expression, vendor_name, file_name }
    }
}

/// A handle to one parameter of an FX.
#[derive(Clone, Copy, Debug)]
pub struct FxParameter {
    pub fx: Fx,
    pub index: u32,
}

impl FxParameter {
    /// Creates the handle from an FX and a parameter index.
    pub fn new(fx: Fx, index: u32) -> (r: FxParameter)
        ensures
            r == (FxParameter { fx, index }),
    {
        FxParameter { fx, index }
    }
}

} // verus!
