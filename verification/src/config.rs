//! The set of monitored keyboards.
//!
//! A configuration is a list of named keyboards in the order they were
//! added. No name occurs twice. Several names may carry the same vendor and
//! product identifiers; a lookup by identifiers then answers with the one
//! added first.

use vstd::prelude::*;

verus! {

/// USB identity of one monitored keyboard.
#[derive(Clone, Copy, Debug, PartialEq, Eq, Structural)]
pub struct KeyboardConfig {
    pub vendor_id: u16,
    pub product_id: u16,
}

impl KeyboardConfig {
    /// Whether this keyboard carries exactly these identifiers.
    pub open spec fn spec_has_ids(self, vendor_id: u16, product_id: u16) -> bool {
        self.vendor_id == vendor_id && self.product_id == product_id
    }

    /// Whether this keyboard carries exactly these identifiers.
    #[verifier::when_used_as_spec(spec_has_ids)]
    pub fn has_ids(self, vendor_id: u16, product_id: u16) -> (b: bool)
        ensures
            b == self.spec_has_ids(vendor_id, product_id),
    {
        self.vendor_id == vendor_id && self.product_id == product_id
    }
}

/// One configured keyboard as contracts see it: its name and its identity.
pub struct KeyboardView {
    pub name: Seq<char>,
    pub keyboard: KeyboardConfig,
}

/// One configured keyboard: the label used in diagnostics and the identity.
#[derive(Debug)]
pub struct KeyboardEntry {
    pub name: String,
    pub keyboard: KeyboardConfig,
}

impl View for KeyboardEntry {
    type V = KeyboardView;

    open spec fn view(&self) -> KeyboardView {
        KeyboardView { name: self.name@, keyboard: self.keyboard }
    }
}

/// No two positions of `keyboards` hold the same name.
pub open spec fn names_distinct(keyboards: Seq<KeyboardView>) -> bool {
    forall|i: int, j: int|
        0 <= i < j < keyboards.len() ==> (#[trigger] keyboards[i]).name != (
        #[trigger] keyboards[j]).name
}

/// Whether position `i` of `keyboards` holds the name `name`.
pub open spec fn holds_name(keyboards: Seq<KeyboardView>, name: Seq<char>, i: int) -> bool {
    0 <= i < keyboards.len() && keyboards[i].name == name
}

/// The position that holds `name`, if one does.
pub open spec fn position_of_name(keyboards: Seq<KeyboardView>, name: Seq<char>) -> Option<int> {
    if exists|i: int| holds_name(keyboards, name, i) {
        Some(choose|i: int| holds_name(keyboards, name, i))
    } else {
        None
    }
}

/// Whether `i` is the first position of `keyboards` whose keyboard carries the
/// identifiers.
pub open spec fn is_first_match(
    keyboards: Seq<KeyboardView>,
    vendor_id: u16,
    product_id: u16,
    i: int,
) -> bool {
    &&& 0 <= i < keyboards.len()
    &&& keyboards[i].keyboard.spec_has_ids(vendor_id, product_id)
    &&& forall|j: int|
        0 <= j < i ==> !(#[trigger] keyboards[j]).keyboard.spec_has_ids(vendor_id, product_id)
}

/// Whether no keyboard of `keyboards` carries the identifiers.
pub open spec fn none_matches(keyboards: Seq<KeyboardView>, vendor_id: u16, product_id: u16) -> bool {
    forall|j: int|
        0 <= j < keyboards.len() ==> !(#[trigger] keyboards[j]).keyboard.spec_has_ids(
            vendor_id,
            product_id,
        )
}

/// The first position of `keyboards` whose keyboard carries the identifiers,
/// if there is one.
pub open spec fn first_match(keyboards: Seq<KeyboardView>, vendor_id: u16, product_id: u16) -> Option<
    int,
> {
    if exists|i: int| is_first_match(keyboards, vendor_id, product_id, i) {
        Some(choose|i: int| is_first_match(keyboards, vendor_id, product_id, i))
    } else {
        None
    }
}

/// A position that is a first match is the first match.
pub proof fn lemma_first_match_is(
    keyboards: Seq<KeyboardView>,
    vendor_id: u16,
    product_id: u16,
    i: int,
)
    requires
        is_first_match(keyboards, vendor_id, product_id, i),
    ensures
        first_match(keyboards, vendor_id, product_id) == Some(i),
{
    let k = choose|k: int| is_first_match(keyboards, vendor_id, product_id, k);
    assert(is_first_match(keyboards, vendor_id, product_id, k));
    if k < i {
        assert(!keyboards[k].keyboard.spec_has_ids(vendor_id, product_id));
    } else if i < k {
        assert(!keyboards[i].keyboard.spec_has_ids(vendor_id, product_id));
    }
}

/// What the first match is: where a keyboard carries the identifiers, the
/// position found is a first match; where none does, nothing is found.
pub proof fn lemma_first_match(keyboards: Seq<KeyboardView>, vendor_id: u16, product_id: u16)
    ensures
        match first_match(keyboards, vendor_id, product_id) {
            Some(i) => is_first_match(keyboards, vendor_id, product_id, i),
            None => none_matches(keyboards, vendor_id, product_id),
        },
        first_match(keyboards, vendor_id, product_id) is None <==> none_matches(
            keyboards,
            vendor_id,
            product_id,
        ),
{
    if none_matches(keyboards, vendor_id, product_id) {
        if exists|i: int| is_first_match(keyboards, vendor_id, product_id, i) {
            let i = choose|i: int| is_first_match(keyboards, vendor_id, product_id, i);
            assert(keyboards[i].keyboard.spec_has_ids(vendor_id, product_id));
        }
    } else {
        let j = choose|j: int|
            0 <= j < keyboards.len() && (#[trigger] keyboards[j]).keyboard.spec_has_ids(
                vendor_id,
                product_id,
            );
        let i = lemma_least_match(keyboards, vendor_id, product_id, j);
        lemma_first_match_is(keyboards, vendor_id, product_id, i);
    }
}

/// Below or at any matching position lies a first match.
proof fn lemma_least_match(
    keyboards: Seq<KeyboardView>,
    vendor_id: u16,
    product_id: u16,
    j: int,
) -> (i: int)
    requires
        0 <= j < keyboards.len(),
        keyboards[j].keyboard.spec_has_ids(vendor_id, product_id),
    ensures
        i <= j,
        is_first_match(keyboards, vendor_id, product_id, i),
    decreases j,
{
    if exists|k: int| 0 <= k < j && (#[trigger] keyboards[k]).keyboard.spec_has_ids(vendor_id, product_id) {
        let k = choose|k: int|
            0 <= k < j && (#[trigger] keyboards[k]).keyboard.spec_has_ids(vendor_id, product_id);
        lemma_least_match(keyboards, vendor_id, product_id, k)
    } else {
        j
    }
}

/// A configuration of one keyboard answers with that keyboard for its own
/// identifiers and with nothing for every other pair.
pub proof fn lemma_single_keyboard(
    name: Seq<char>,
    keyboard: KeyboardConfig,
    vendor_id: u16,
    product_id: u16,
)
    ensures
        first_match(seq![KeyboardView { name, keyboard }], vendor_id, product_id) == if vendor_id
            == keyboard.vendor_id && product_id == keyboard.product_id {
            Some(0int)
        } else {
            None
        },
{
    let keyboards = seq![KeyboardView { name, keyboard }];
    lemma_first_match(keyboards, vendor_id, product_id);
    assert(keyboards[0].keyboard == keyboard);
}

/// The monitored keyboards, in the order they were added.
#[derive(Debug)]
pub struct Config {
    keyboards: Vec<KeyboardEntry>,
}

impl View for Config {
    type V = Seq<KeyboardView>;

    closed spec fn view(&self) -> Seq<KeyboardView> {
        self.keyboards@.map_values(|e: KeyboardEntry| e@)
    }
}

impl Config {
    #[verifier::type_invariant]
    spec fn well_formed(&self) -> bool {
        names_distinct(self@)
    }

    /// A configuration without keyboards.
    pub fn new() -> (config: Config)
        ensures
            config@ == Seq::<KeyboardView>::empty(),
            names_distinct(config@),
    {
        let config = Config { keyboards: Vec::new() };
        assert(config@ =~= Seq::<KeyboardView>::empty());
        config
    }

    /// Number of configured keyboards.
    pub fn len(&self) -> (n: usize)
        ensures
            n == self@.len(),
            names_distinct(self@),
    {
        proof {
            use_type_invariant(self);
        }
        self.keyboards.len()
    }

    /// Whether no keyboard is configured.
    pub fn is_empty(&self) -> (b: bool)
        ensures
            b == (self@.len() == 0),
    {
        self.keyboards.len() == 0
    }

    /// The keyboard at position `i`, counted in the order of addition.
    pub fn entry(&self, i: usize) -> (entry: &KeyboardEntry)
        requires
            i < self@.len(),
        ensures
            entry@ == self@[i as int],
    {
        &self.keyboards[i]
    }

    /// The position that holds the name `name`, if one does.
    pub fn position(&self, name: &str) -> (found: Option<usize>)
        ensures
            found is Some <==> exists|i: int| holds_name(self@, name@, i),
            found matches Some(i) ==> holds_name(self@, name@, i as int),
            match found {
                Some(i) => position_of_name(self@, name@) == Some(i as int),
                None => position_of_name(self@, name@) is None,
            },
    {
        proof {
            use_type_invariant(self);
        }
        let wanted: String = name.to_owned();
        let mut i: usize = 0;
        while i < self.keyboards.len()
            invariant
                i <= self.keyboards.len(),
                wanted@ == name@,
                names_distinct(self@),
                forall|j: int| 0 <= j < i ==> !holds_name(self@, name@, j),
            decreases self.keyboards.len() - i,
        {
            if self.keyboards[i].name == wanted {
                assert(holds_name(self@, name@, i as int));
                proof {
                    let k = choose|k: int| holds_name(self@, name@, k);
                    assert(holds_name(self@, name@, k));
                    if k != i {
                        assert(self@[k].name == self@[i as int].name);
                    }
                }
                return Some(i);
            }
            i += 1;
        }
        None
    }

    /// The identity configured under `name`, if the name is configured.
    pub fn get(&self, name: &str) -> (found: Option<KeyboardConfig>)
        ensures
            found is Some <==> exists|i: int| holds_name(self@, name@, i),
            forall|i: int| holds_name(self@, name@, i) ==> found == Some(self@[i].keyboard),
    {
        proof {
            use_type_invariant(self);
        }
        match self.position(name) {
            Some(i) => {
                assert forall|k: int| holds_name(self@, name@, k) implies k == i by {
                    if k != i {
                        assert(self@[k].name == self@[i as int].name);
                    }
                }
                Some(self.keyboards[i].keyboard)
            },
            None => None,
        }
    }

    /// Configures `keyboard` under `name`. A name that is already configured
    /// keeps its position, takes the new identity and hands back the one it
    /// had; a new name goes to the end.
    pub fn insert(&mut self, name: String, keyboard: KeyboardConfig) -> (previous: Option<
        KeyboardConfig,
    >)
        ensures
            names_distinct(final(self)@),
            match position_of_name(old(self)@, name@) {
                Some(i) => {
                    &&& previous == Some(old(self)@[i].keyboard)
                    &&& final(self)@ == old(self)@.update(
                        i,
                        KeyboardView { name: name@, keyboard },
                    )
                },
                None => {
                    &&& previous is None
                    &&& final(self)@ == old(self)@.push(KeyboardView { name: name@, keyboard })
                },
            },
    {
        proof {
            use_type_invariant(&*self);
        }
        let found = self.position(name.as_str());
        let entry = KeyboardEntry { name, keyboard };
        let ghost before = self@;
        let mut keyboards: Vec<KeyboardEntry> = Vec::new();
        core::mem::swap(&mut self.keyboards, &mut keyboards);
        assert(keyboards@.map_values(|e: KeyboardEntry| e@) == before);
        let previous = match found {
            Some(i) => {
                let previous = keyboards[i].keyboard;
                keyboards.set(i, entry);
                assert(keyboards@.map_values(|e: KeyboardEntry| e@) =~= before.update(
                    i as int,
                    entry@,
                ));
                Some(previous)
            },
            None => {
                keyboards.push(entry);
                assert(keyboards@.map_values(|e: KeyboardEntry| e@) =~= before.push(entry@));
                assert forall|k: int| 0 <= k < before.len() implies before[k].name != entry@.name by {
                    assert(!holds_name(before, entry@.name, k));
                }
                None
            },
        };
        core::mem::swap(&mut self.keyboards, &mut keyboards);
        previous
    }

    /// The first configured keyboard that carries the identifiers, by its
    /// position; `None` where no configured keyboard carries them.
    pub fn match_index(&self, vendor_id: u16, product_id: u16) -> (found: Option<usize>)
        ensures
            match found {
                Some(i) => is_first_match(self@, vendor_id, product_id, i as int),
                None => none_matches(self@, vendor_id, product_id),
            },
            found is Some <==> first_match(self@, vendor_id, product_id) is Some,
            found matches Some(i) ==> first_match(self@, vendor_id, product_id) == Some(i as int),
    {
        let mut i: usize = 0;
        while i < self.keyboards.len()
            invariant
                i <= self.keyboards.len(),
                forall|j: int|
                    0 <= j < i ==> !(#[trigger] self@[j]).keyboard.spec_has_ids(
                        vendor_id,
                        product_id,
                    ),
            decreases self.keyboards.len() - i,
        {
            if self.keyboards[i].keyboard.has_ids(vendor_id, product_id) {
                proof {
                    lemma_first_match_is(self@, vendor_id, product_id, i as int);
                }
                return Some(i);
            }
            i += 1;
        }
        proof {
            lemma_first_match(self@, vendor_id, product_id);
        }
        None
    }

    /// The first configured keyboard that carries the identifiers, with its
    /// name; `None` where no configured keyboard carries them.
    pub fn match_keyboard(&self, vendor_id: u16, product_id: u16) -> (found: Option<
        &KeyboardEntry,
    >)
        ensures
            match first_match(self@, vendor_id, product_id) {
                Some(i) => found matches Some(entry) && entry@ == self@[i],
                None => found is None,
            },
            found is None <==> none_matches(self@, vendor_id, product_id),
            found matches Some(entry) ==> entry@.keyboard.spec_has_ids(vendor_id, product_id),
    {
        proof {
            lemma_first_match(self@, vendor_id, product_id);
        }
        match self.match_index(vendor_id, product_id) {
            Some(i) => Some(&self.keyboards[i]),
            None => None,
        }
    }
}

} // verus!
