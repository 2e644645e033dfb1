//! Mnemonic key system: a modal key-binding mode in which single keys
//! dispatch named actions.

use vstd::prelude::*;

verus! {

/// A single mnemonic binding: a key, its human-readable label, and the action
/// string dispatched when it is pressed.
#[derive(Debug, Clone)]
pub struct MnemonicBinding {
    /// The trigger key.
    pub key: char,
    /// A short label displayed to the user.
    pub label: String,
    /// The action identifier to execute.
    pub action: String,
}

impl View for MnemonicBinding {
    type V = (char, Seq<char>, Seq<char>);

    open spec fn view(&self) -> (char, Seq<char>, Seq<char>) {
        (self.key, self.label@, self.action@)
    }
}

/// Manages a set of mnemonic bindings and the active/inactive modal state.
#[derive(Debug, Clone)]
pub struct MnemonicEngine {
    bindings: Vec<MnemonicBinding>,
    active: bool,
}

/// The index of the most recently registered binding of `key`, if any.
pub open spec fn last_binding_index(bindings: Seq<(char, Seq<char>, Seq<char>)>, key: char) -> Option<int>
    decreases bindings.len(),
{
    if bindings.len() == 0 {
        None
    } else if bindings.last().0 == key {
        Some(bindings.len() - 1)
    } else {
        last_binding_index(bindings.drop_last(), key)
    }
}

/// The action bound to `key`: that of the most recently registered binding.
pub open spec fn lookup_action(bindings: Seq<(char, Seq<char>, Seq<char>)>, key: char) -> Option<Seq<char>> {
    match last_binding_index(bindings, key) {
        Some(i) => Some(bindings[i].2),
        None => None,
    }
}

impl MnemonicEngine {
    /// The registered bindings, oldest first.
    pub closed spec fn bindings_view(&self) -> Seq<(char, Seq<char>, Seq<char>)> {
        self.bindings@.map_values(|b: MnemonicBinding| b@)
    }

    /// Whether the engine is in mnemonic mode.
    pub closed spec fn active_view(&self) -> bool {
        self.active
    }

    /// Creates a new engine with no bindings and in the inactive state.
    pub fn new() -> (res: Self)
        ensures
            res.bindings_view() == Seq::<(char, Seq<char>, Seq<char>)>::empty(),
            !res.active_view(),
    {
        MnemonicEngine { bindings: Vec::new(), active: false }
    }

    /// Registers a new mnemonic binding; a later binding of the same key
    /// shadows earlier ones.
    pub fn register(&mut self, key: char, label: String, action: String)
        ensures
            final(self).bindings_view() == old(self).bindings_view().push((key, label@, action@)),
            final(self).active_view() == old(self).active_view(),
    {
        self.bindings.push(MnemonicBinding { key, label, action });
        proof {
            assert(self.bindings@.map_values(|b: MnemonicBinding| b@) =~= old(self).bindings@.map_values(
                |b: MnemonicBinding| b@,
            ).push((key, label@, action@)));
        }
    }

    /// Enters mnemonic mode.
    pub fn activate(&mut self)
        ensures
            final(self).active_view(),
            final(self).bindings_view() == old(self).bindings_view(),
    {
        self.active = true;
    }

    /// Exits mnemonic mode.
    pub fn deactivate(&mut self)
        ensures
            !final(self).active_view(),
            final(self).bindings_view() == old(self).bindings_view(),
    {
        self.active = false;
    }

    /// Returns `true` if the engine is currently in mnemonic mode.
    pub fn is_active(&self) -> (res: bool)
        ensures
            res == self.active_view(),
    {
        self.active
    }

    /// Looks up a key: the action of the most recently registered binding
    /// of `key`, or `None` if no binding matches.
    pub fn match_key(&self, key: char) -> (res: Option<&str>)
        ensures
            match res {
                Some(a) => lookup_action(self.bindings_view(), key) == Some(a@),
                None => lookup_action(self.bindings_view(), key) is None,
            },
    {
        let mut i = self.bindings.len();
        proof {
            assert(self.bindings_view().take(i as int) =~= self.bindings_view());
        }
        while i > 0
            invariant
                i <= self.bindings@.len(),
                last_binding_index(self.bindings_view(), key) == last_binding_index(
                    self.bindings_view().take(i as int),
                    key,
                ),
            decreases i,
        {
            proof {
                assert(self.bindings_view().take(i as int).drop_last() =~= self.bindings_view().take(
                    i - 1,
                ));
            }
            if self.bindings[i - 1].key == key {
                return Some(self.bindings[i - 1].action.as_str());
            }
            i = i - 1;
        }
        None
    }

    /// All registered bindings, oldest first.
    pub fn bindings(&self) -> (res: &[MnemonicBinding])
        ensures
            res@.map_values(|b: MnemonicBinding| b@) == self.bindings_view(),
    {
        self.bindings.as_slice()
    }
}

impl Default for MnemonicEngine {
    fn default() -> (res: Self)
        ensures
            res.bindings_view() == Seq::<(char, Seq<char>, Seq<char>)>::empty(),
            !res.active_view(),
    {
        Self::new()
    }
}

/// After registering `key`, looking it up finds the new action, and every
/// other key finds what it found before.
pub proof fn law_register_then_match(
    bindings: Seq<(char, Seq<char>, Seq<char>)>,
    key: char,
    label: Seq<char>,
    action: Seq<char>,
    other: char,
)
    ensures
        lookup_action(bindings.push((key, label, action)), key) == Some(action),
        other != key ==> lookup_action(bindings.push((key, label, action)), other)
            == lookup_action(bindings, other),
{
    let s = bindings.push((key, label, action));
    assert(s.drop_last() =~= bindings);
    lemma_last_binding_index(bindings, other);
    if let Some(i) = last_binding_index(bindings, other) {
        assert(s[i] == bindings[i]);
    }
}

proof fn lemma_last_binding_index(bindings: Seq<(char, Seq<char>, Seq<char>)>, key: char)
    ensures
        last_binding_index(bindings, key) matches Some(i) ==> 0 <= i < bindings.len(),
    decreases bindings.len(),
{
    if bindings.len() > 0 {
        lemma_last_binding_index(bindings.drop_last(), key);
    }
}

} // verus!
