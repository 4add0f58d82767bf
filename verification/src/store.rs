use vstd::prelude::*;

verus! {

use crate::message::Message;

/// The narrative parameters of the single active session. All fields are
/// free text; empty strings are accepted everywhere.
pub struct SessionConfig {
    pub player_name: String,
    pub world_theme: String,
    pub player_description: String,
    pub world_description: String,
}

/// The mathematical value of a `SessionConfig`: its four texts.
#[verifier::ext_equal]
pub ghost struct ConfigView {
    pub player_name: Seq<char>,
    pub world_theme: Seq<char>,
    pub player_description: Seq<char>,
    pub world_description: Seq<char>,
}

impl ConfigView {
    /// The configuration at process start: every field empty.
    pub open spec fn empty() -> ConfigView {
        ConfigView {
            player_name: Seq::empty(),
            world_theme: Seq::empty(),
            player_description: Seq::empty(),
            world_description: Seq::empty(),
        }
    }
}

impl View for SessionConfig {
    type V = ConfigView;

    open spec fn view(&self) -> ConfigView {
        ConfigView {
            player_name: self.player_name@,
            world_theme: self.world_theme@,
            player_description: self.player_description@,
            world_description: self.world_description@,
        }
    }
}

impl Clone for SessionConfig {
    /// A field-for-field copy: the clone carries the same four texts.
    fn clone(&self) -> (c: Self)
        ensures
            c@ == self@,
    {
        let c = SessionConfig {
            player_name: self.player_name.clone(),
            world_theme: self.world_theme.clone(),
            player_description: self.player_description.clone(),
            world_description: self.world_description.clone(),
        };
        proof {
            assert(c@ =~= self@);
        }
        c
    }
}

/// What a store holds after an initialization: the new configuration
/// whole; the previous value is discarded, never merged into.
pub open spec fn replaced(prev: ConfigView, next: ConfigView) -> ConfigView {
    next
}

/// The fixed confirmation text that `initialize` returns.
pub open spec fn init_confirmation() -> Seq<char> {
    "Config successfully updated!"@
}

/// The single shared configuration record. Exactly one value is visible at
/// any instant; callers that share it across tasks put it behind a lock and
/// hold that lock only for the duration of `initialize` or `read`, never
/// across a network call.
pub struct SessionStore {
    config: SessionConfig,
}

impl View for SessionStore {
    type V = ConfigView;

    closed spec fn view(&self) -> ConfigView {
        self.config@
    }
}

impl SessionStore {
    /// A fresh store, as at process start: every configuration field empty.
    pub fn new() -> (s: Self)
        ensures
            s@ == ConfigView::empty(),
    {
        let s = SessionStore {
            config: SessionConfig {
                player_name: String::new(),
                world_theme: String::new(),
                player_description: String::new(),
                world_description: String::new(),
            },
        };
        proof {
            assert(s@ =~= ConfigView::empty());
        }
        s
    }

    /// Replaces the stored configuration wholesale with `new_config` and
    /// returns the fixed confirmation message. Always succeeds; field
    /// contents are not validated.
    pub fn initialize(&mut self, new_config: SessionConfig) -> (r: Message)
        ensures
            final(self)@ == replaced(old(self)@, new_config@),
            r@ == init_confirmation(),
    {
        self.config = new_config;
        Message { content: String::from_str("Config successfully updated!") }
    }

    /// Returns a snapshot of the current configuration: a copy, not a live
    /// reference, so the caller can release any lock before slow work.
    pub fn read(&self) -> (c: SessionConfig)
        ensures
            c@ == self@,
    {
        self.config.clone()
    }
}

/// Initializing with `c1` and then with `c2` leaves exactly `c2` to be
/// read: an initialization is a whole-record replace, never a merge.
pub proof fn lemma_second_initialize_wins(s0: ConfigView, c1: ConfigView, c2: ConfigView)
    ensures
        replaced(replaced(s0, c1), c2) == c2,
{
}

/// Two initializations serialized in either order leave one of the two
/// submitted configurations in full: a reader never observes a record with
/// fields mixed from both.
pub proof fn lemma_no_torn_config(s0: ConfigView, c1: ConfigView, c2: ConfigView)
    ensures
        replaced(replaced(s0, c1), c2) == c1 || replaced(replaced(s0, c1), c2) == c2,
        replaced(replaced(s0, c2), c1) == c1 || replaced(replaced(s0, c2), c1) == c2,
{
}

} // verus!
