//! The handle wrapper and the callback dispatch core.
//!
//! A [`Discord`] value stands for one native handle: it owns the event
//! channel registry, the creation parameters it was built from, and the
//! ordered collection of pending callback entries. Asynchronous operations
//! are registered here; the cooperative pump [`Discord::run_callbacks`]
//! drains the entries whose channel holds a completion, each exactly once,
//! in insertion order.

use vstd::prelude::*;

use crate::callbacks::{
    distinct_tokens, is_interleaving, lemma_distinct_push_fresh, lemma_elem_occurs,
    lemma_interleaving_push_fired, lemma_interleaving_push_kept, lemma_occurs_index,
    lemma_scan_partitions, CallbackShape, Completion, Firing, PendingCallback,
};
use crate::channel::{new_completion_channel, try_recv_completion};
use crate::error::{spec_error_of, DiscordResult, STATUS_OK};
use crate::event::{create_channels, EventReceivers, EventSenders};

verus! {

/// The API version constant handed to the native creation entry point; the
/// linked native library must expect the same version or creation fails.
pub const DISCORD_VERSION: i32 = 3;

/// Interface version of the application manager's event table.
pub const APPLICATION_MANAGER_VERSION: i32 = 1;

/// Interface version of the user manager's event table.
pub const USER_MANAGER_VERSION: i32 = 1;

/// Interface version of the image manager's event table.
pub const IMAGE_MANAGER_VERSION: i32 = 1;

/// Interface version of the activity manager's event table.
pub const ACTIVITY_MANAGER_VERSION: i32 = 1;

/// Interface version of the relationship manager's event table.
pub const RELATIONSHIP_MANAGER_VERSION: i32 = 1;

/// Interface version of the lobby manager's event table.
pub const LOBBY_MANAGER_VERSION: i32 = 1;

/// Interface version of the network manager's event table.
pub const NETWORK_MANAGER_VERSION: i32 = 1;

/// Interface version of the overlay manager's event table.
pub const OVERLAY_MANAGER_VERSION: i32 = 1;

/// Interface version of the storage manager's event table.
pub const STORAGE_MANAGER_VERSION: i32 = 1;

/// Interface version of the store manager's event table.
pub const STORE_MANAGER_VERSION: i32 = 1;

/// Interface version of the voice manager's event table.
pub const VOICE_MANAGER_VERSION: i32 = 1;

/// Interface version of the achievement manager's event table.
pub const ACHIEVEMENT_MANAGER_VERSION: i32 = 1;

/// Creation flags for the native handle.
#[derive(Clone, Copy, Debug, PartialEq, Eq, Structural)]
pub enum CreateFlags {
    /// Require the platform client to be running; abort otherwise.
    Normal,
    /// Do not abort when the platform client is not running.
    NoRequireDiscord,
}

impl CreateFlags {
    /// The bitmask value the native creation entry point takes.
    pub open spec fn spec_bits(self) -> u64 {
        match self {
            CreateFlags::Normal => 0,
            CreateFlags::NoRequireDiscord => 1,
        }
    }

    /// The bitmask value the native creation entry point takes.
    pub fn bits(self) -> (r: u64)
        ensures
            r == self.spec_bits(),
    {
        match self {
            CreateFlags::Normal => 0,
            CreateFlags::NoRequireDiscord => 1,
        }
    }
}

impl Default for CreateFlags {
    /// The default creation flags: require the platform client.
    fn default() -> (r: Self)
        ensures
            r == CreateFlags::Normal,
    {
        CreateFlags::Normal
    }
}

/// Plain-data model of the parameter block handed to the native creation
/// entry point: the application identifier, the flag bitmask, and, per
/// manager, whether an event table is wired and under which interface
/// version. Only the categories that deliver asynchronous events get a
/// table; the others pass a null table.
#[derive(Clone, Copy, Debug, PartialEq, Eq, Structural)]
pub struct CreateParams {
    pub client_id: i64,
    pub flags: u64,
    pub version: i32,
    pub application_events_wired: bool,
    pub application_version: i32,
    pub user_events_wired: bool,
    pub user_version: i32,
    pub image_events_wired: bool,
    pub image_version: i32,
    pub activity_events_wired: bool,
    pub activity_version: i32,
    pub relationship_events_wired: bool,
    pub relationship_version: i32,
    pub lobby_events_wired: bool,
    pub lobby_version: i32,
    pub network_events_wired: bool,
    pub network_version: i32,
    pub overlay_events_wired: bool,
    pub overlay_version: i32,
    pub storage_events_wired: bool,
    pub storage_version: i32,
    pub store_events_wired: bool,
    pub store_version: i32,
    pub voice_events_wired: bool,
    pub voice_version: i32,
    pub achievement_events_wired: bool,
    pub achievement_version: i32,
}

/// The parameter block for a given application identifier and flags: every
/// version field carries its fixed interface constant, and exactly the user,
/// activity, relationship, lobby, network, overlay, store and voice
/// categories have their event tables wired.
pub open spec fn spec_create_params(client_id: i64, flags: CreateFlags) -> CreateParams {
    CreateParams {
        client_id,
        flags: flags.spec_bits(),
        version: DISCORD_VERSION,
        application_events_wired: false,
        application_version: APPLICATION_MANAGER_VERSION,
        user_events_wired: true,
        user_version: USER_MANAGER_VERSION,
        image_events_wired: false,
        image_version: IMAGE_MANAGER_VERSION,
        activity_events_wired: true,
        activity_version: ACTIVITY_MANAGER_VERSION,
        relationship_events_wired: true,
        relationship_version: RELATIONSHIP_MANAGER_VERSION,
        lobby_events_wired: true,
        lobby_version: LOBBY_MANAGER_VERSION,
        network_events_wired: true,
        network_version: NETWORK_MANAGER_VERSION,
        overlay_events_wired: true,
        overlay_version: OVERLAY_MANAGER_VERSION,
        storage_events_wired: false,
        storage_version: STORAGE_MANAGER_VERSION,
        store_events_wired: true,
        store_version: STORE_MANAGER_VERSION,
        voice_events_wired: true,
        voice_version: VOICE_MANAGER_VERSION,
        achievement_events_wired: false,
        achievement_version: ACHIEVEMENT_MANAGER_VERSION,
    }
}

/// Builds the creation parameter block.
pub fn create_params(client_id: i64, flags: CreateFlags) -> (p: CreateParams)
    ensures
        p == spec_create_params(client_id, flags),
{
    CreateParams {
        client_id,
        flags: flags.bits(),
        version: DISCORD_VERSION,
        application_events_wired: false,
        application_version: APPLICATION_MANAGER_VERSION,
        user_events_wired: true,
        user_version: USER_MANAGER_VERSION,
        image_events_wired: false,
        image_version: IMAGE_MANAGER_VERSION,
        activity_events_wired: true,
        activity_version: ACTIVITY_MANAGER_VERSION,
        relationship_events_wired: true,
        relationship_version: RELATIONSHIP_MANAGER_VERSION,
        lobby_events_wired: true,
        lobby_version: LOBBY_MANAGER_VERSION,
        network_events_wired: true,
        network_version: NETWORK_MANAGER_VERSION,
        overlay_events_wired: true,
        overlay_version: OVERLAY_MANAGER_VERSION,
        storage_events_wired: false,
        storage_version: STORAGE_MANAGER_VERSION,
        store_events_wired: true,
        store_version: STORE_MANAGER_VERSION,
        voice_events_wired: true,
        voice_version: VOICE_MANAGER_VERSION,
        achievement_events_wired: false,
        achievement_version: ACHIEVEMENT_MANAGER_VERSION,
    }
}

/// The native feature managers that need a kickstart touch at creation.
#[derive(Clone, Copy, Debug, PartialEq, Eq, Structural)]
pub enum ManagerKind {
    Network,
    Overlay,
    Relationship,
    User,
    Activity,
    Lobby,
    Store,
    Voice,
}

/// One handle on the native platform layer: the creation configuration, the
/// event channel registry, and the ordered collection of pending callback
/// entries awaiting dispatch.
pub struct Discord {
    client_id: i64,
    params: CreateParams,
    next_token: u64,
    pending: Vec<PendingCallback>,
    senders: EventSenders,
    receivers: EventReceivers,
}

impl Discord {
    /// The application identifier the handle was created for.
    pub closed spec fn spec_client_id(self) -> i64 {
        self.client_id
    }

    /// The creation parameter block the handle was built from.
    pub closed spec fn spec_params(self) -> CreateParams {
        self.params
    }

    /// The correlation token the next registration will take.
    pub closed spec fn spec_next_token(self) -> u64 {
        self.next_token
    }

    /// The event channel registry's sending halves.
    pub closed spec fn spec_senders(self) -> EventSenders {
        self.senders
    }

    /// The event channel registry's receiving halves.
    pub closed spec fn spec_receivers(self) -> EventReceivers {
        self.receivers
    }

    /// The pending entries, in insertion order, as token and shape pairs.
    pub closed spec fn pending_entries(self) -> Seq<(u64, CallbackShape)> {
        self.pending@.map_values(|e: PendingCallback| (e.token, e.shape))
    }

    /// The pending entries' correlation tokens, in insertion order.
    pub open spec fn pending_tokens(self) -> Seq<u64> {
        self.pending_entries().map_values(|p: (u64, CallbackShape)| p.0)
    }

    /// Well-formedness: no token is pending twice, and every pending token
    /// was handed out before the next one to come.
    pub closed spec fn wf(self) -> bool {
        &&& distinct_tokens(self.pending_tokens())
        &&& forall|i: int|
            0 <= i < self.pending_tokens().len() ==> self.pending_tokens()[i] < self.next_token
    }

    /// Creates a handle with the default creation flags.
    pub fn new(client_id: i64) -> (r: DiscordResult<Discord>)
        ensures
            r matches Ok(d) ==> {
                &&& d.wf()
                &&& d.spec_client_id() == client_id
                &&& d.spec_params() == spec_create_params(client_id, CreateFlags::Normal)
                &&& d.pending_tokens() == Seq::<u64>::empty()
                &&& d.spec_next_token() == 0
            },
            r is Ok,
    {
        Self::with_create_flags(client_id, CreateFlags::default())
    }

    /// Creates a handle: builds the event channel registry, records the
    /// creation parameter block that the native creation entry point
    /// consumes, and starts with no pending entries. Whether the native
    /// side accepts the parameters is the collaborator's decision at its
    /// own boundary; the wrapper itself refuses nothing.
    pub fn with_create_flags(client_id: i64, flags: CreateFlags) -> (r: DiscordResult<Discord>)
        ensures
            r matches Ok(d) ==> {
                &&& d.wf()
                &&& d.spec_client_id() == client_id
                &&& d.spec_params() == spec_create_params(client_id, flags)
                &&& d.pending_tokens() == Seq::<u64>::empty()
                &&& d.spec_next_token() == 0
            },
            r is Ok,
    {
        let params = create_params(client_id, flags);
        let (senders, receivers) = create_channels();
        let d = Discord {
            client_id,
            params,
            next_token: 0,
            pending: Vec::new(),
            senders,
            receivers,
        };
        proof {
            assert(d.pending_entries() =~= Seq::<(u64, CallbackShape)>::empty());
            assert(d.pending_tokens() =~= Seq::<u64>::empty());
        }
        Ok(d)
    }

    /// The order in which the feature managers are touched at creation:
    /// managers that synchronously enqueue startup events come first, so
    /// their events are observable soonest. The voice manager is left out;
    /// touching it at creation crashes the native library.
    pub fn kickstart_managers() -> (order: Vec<ManagerKind>)
        ensures
            order@ == seq![
                ManagerKind::Network,
                ManagerKind::Overlay,
                ManagerKind::Relationship,
                ManagerKind::User,
                ManagerKind::Activity,
                ManagerKind::Lobby,
                ManagerKind::Store,
            ],
    {
        let mut order: Vec<ManagerKind> = Vec::new();
        order.push(ManagerKind::Network);
        order.push(ManagerKind::Overlay);
        order.push(ManagerKind::Relationship);
        order.push(ManagerKind::User);
        order.push(ManagerKind::Activity);
        order.push(ManagerKind::Lobby);
        order.push(ManagerKind::Store);
        proof {
            assert(order@ =~= seq![
                ManagerKind::Network,
                ManagerKind::Overlay,
                ManagerKind::Relationship,
                ManagerKind::User,
                ManagerKind::Activity,
                ManagerKind::Lobby,
                ManagerKind::Store,
            ]);
        }
        order
    }

    /// The application identifier the handle was created for.
    pub fn client_id(&self) -> (r: i64)
        ensures
            r == self.spec_client_id(),
    {
        self.client_id
    }

    /// The creation parameter block the handle was built from.
    pub fn creation_params(&self) -> (r: &CreateParams)
        ensures
            *r == self.spec_params(),
    {
        &self.params
    }

    /// The correlation token the next registration will take.
    pub fn next_token(&self) -> (r: u64)
        ensures
            r == self.spec_next_token(),
    {
        self.next_token
    }

    /// How many entries are pending.
    pub fn pending_len(&self) -> (r: usize)
        ensures
            r == self.pending_tokens().len(),
    {
        self.pending.len()
    }

    /// The correlation token of the pending entry at one position.
    pub fn pending_token_at(&self, i: usize) -> (r: u64)
        requires
            i < self.pending_tokens().len(),
        ensures
            r == self.pending_tokens()[i as int],
    {
        self.pending[i].token
    }

    /// Registers one asynchronous operation: appends a fresh pending entry
    /// bound to a new single-capacity channel, and returns the entry's
    /// correlation token together with the sending half, which is handed to
    /// the native side for the matching trampoline to complete.
    ///
    /// The entry exists before the sender leaves this function, so a native
    /// call that completes synchronously still finds its entry in place.
    pub fn register_callback(&mut self, shape: CallbackShape) -> (r: (
        u64,
        crossbeam_channel::Sender<Completion>,
    ))
        requires
            old(self).wf(),
            old(self).spec_next_token() < u64::MAX,
        ensures
            final(self).wf(),
            r.0 == old(self).spec_next_token(),
            final(self).spec_next_token() == old(self).spec_next_token() + 1,
            final(self).pending_entries() == old(self).pending_entries().push((r.0, shape)),
            final(self).pending_tokens() == old(self).pending_tokens().push(r.0),
            final(self).spec_client_id() == old(self).spec_client_id(),
            final(self).spec_params() == old(self).spec_params(),
            final(self).spec_senders() == old(self).spec_senders(),
            final(self).spec_receivers() == old(self).spec_receivers(),
    {
        let token = self.next_token;
        let (sender, receiver) = new_completion_channel();
        let entry = PendingCallback { token, shape, receiver };
        self.pending.push(entry);
        self.next_token = token + 1;
        proof {
            assert(self.pending_entries() =~= old(self).pending_entries().push((token, shape)));
            assert(self.pending_tokens() =~= old(self).pending_tokens().push(token));
            assert forall|i: int| 0 <= i < old(self).pending_tokens().len()
                implies old(self).pending_tokens()[i] != token by {}
            lemma_distinct_push_fresh(old(self).pending_tokens(), token);
        }
        (token, sender)
    }

    /// The cooperative pump. `driver_status` is what the native "run pending
    /// callbacks" entry point reported for this round; its trampolines may
    /// have pushed completions before it returned.
    ///
    /// When the driver reports failure, its projected error is returned, no
    /// entry is drained, and the handle is left exactly as it was: every
    /// pending entry stays for the next round. Otherwise the entries are
    /// scanned in insertion order; each one whose channel holds a completion
    /// is removed — before anything is delivered, so a continuation that
    /// registers a new operation cannot observe its own stale entry — and
    /// its owed invocation is returned, in scan order. The returned split is
    /// order-preserving: `is_interleaving` ties the old pending order to the
    /// new pending order and the firing order.
    pub fn run_callbacks(&mut self, driver_status: i32) -> (r: DiscordResult<Vec<Firing>>)
        requires
            old(self).wf(),
        ensures
            final(self).wf(),
            driver_status != STATUS_OK ==> {
                &&& r matches Err(e) && e == spec_error_of(driver_status)
                &&& *final(self) == *old(self)
            },
            driver_status == STATUS_OK ==> r is Ok,
            r matches Ok(fired) ==> {
                &&& is_interleaving(
                    old(self).pending_tokens(),
                    final(self).pending_tokens(),
                    fired@.map_values(|f: Firing| f.token),
                )
                &&& forall|k: int|
                    0 <= k < fired@.len() ==> old(self).pending_entries().contains(
                        (fired@[k].token, fired@[k].shape),
                    )
                &&& final(self).spec_client_id() == old(self).spec_client_id()
                &&& final(self).spec_params() == old(self).spec_params()
                &&& final(self).spec_next_token() == old(self).spec_next_token()
                &&& final(self).spec_senders() == old(self).spec_senders()
                &&& final(self).spec_receivers() == old(self).spec_receivers()
            },
    {
        if driver_status != STATUS_OK {
            return Err(crate::error::error_of(driver_status));
        }
        let ghost orig = old(self).pending_tokens();
        let ghost orig_entries = old(self).pending_entries();
        let mut fired: Vec<Firing> = Vec::new();
        let mut i: usize = 0;
        proof {
            assert(orig.take(0) =~= Seq::<u64>::empty());
            assert(self.pending_tokens().take(0) =~= Seq::<u64>::empty());
            assert(fired@.map_values(|f: Firing| f.token) =~= Seq::<u64>::empty());
        }
        while i < self.pending.len()
            invariant
                i <= self.pending.len(),
                i + fired@.len() <= orig.len(),
                orig.len() == orig_entries.len(),
                orig == orig_entries.map_values(|p: (u64, CallbackShape)| p.0),
                self.pending_entries().skip(i as int) == orig_entries.skip(
                    i + fired@.len() as int,
                ),
                is_interleaving(
                    orig.take(i + fired@.len() as int),
                    self.pending_tokens().take(i as int),
                    fired@.map_values(|f: Firing| f.token),
                ),
                forall|k: int|
                    0 <= k < fired@.len() ==> orig_entries.contains(
                        (fired@[k].token, fired@[k].shape),
                    ),
                self.client_id == old(self).client_id,
                self.params == old(self).params,
                self.next_token == old(self).next_token,
                self.senders == old(self).senders,
                self.receivers == old(self).receivers,
            decreases self.pending.len() - i,
        {
            let ghost prev_entries = self.pending_entries();
            let ghost prev_tokens = self.pending_tokens();
            let ghost prev_fired = fired@.map_values(|f: Firing| f.token);
            let ghost jj = i + fired@.len() as int;
            proof {
                assert(self.pending_entries().skip(i as int).len() == self.pending_entries().len()
                    - i);
                assert(jj < orig_entries.len());
            }
            let ready = try_recv_completion(&self.pending[i].receiver);
            match ready {
                Some(c) => {
                    let entry = self.pending.remove(i);
                    fired.push(Firing { token: entry.token, shape: entry.shape, outcome: c });
                    proof {
                        assert(prev_entries.skip(i as int)[0] == orig_entries.skip(jj)[0]);
                        assert(prev_entries.skip(i as int)[0] == prev_entries[i as int]);
                        assert(orig_entries.skip(jj)[0] == orig_entries[jj]);
                        assert(prev_entries[i as int] == (entry.token, entry.shape));
                        assert((entry.token, entry.shape) == orig_entries[jj]);
                        assert(orig[jj] == orig_entries[jj].0);
                        assert(orig[jj] == entry.token);
                        assert(self.pending_entries() =~= prev_entries.remove(i as int));
                        assert(self.pending_tokens() =~= prev_tokens.remove(i as int));
                        assert(self.pending_tokens().take(i as int) =~= prev_tokens.take(i as int));
                        assert(self.pending_entries().len() == prev_entries.len() - 1);
                        assert forall|k: int| i <= k < self.pending_entries().len() implies #[trigger] self.pending_entries()[k]
                            == orig_entries[k - i + jj + 1] by {
                            assert(self.pending_entries()[k] == prev_entries[k + 1]);
                            assert(prev_entries.skip(i as int)[k + 1 - i] == prev_entries[k + 1]);
                            assert(orig_entries.skip(jj)[k + 1 - i] == orig_entries[k - i + jj + 1]);
                        }
                        assert(self.pending_entries().skip(i as int) =~= orig_entries.skip(jj + 1));
                        assert(fired@.map_values(|f: Firing| f.token) =~= prev_fired.push(
                            entry.token,
                        ));
                        lemma_interleaving_push_fired(
                            orig.take(jj),
                            prev_tokens.take(i as int),
                            prev_fired,
                            orig[jj],
                        );
                        assert(orig.take(jj + 1) =~= orig.take(jj).push(orig[jj]));
                        assert(orig_entries.contains(orig_entries[jj]));
                    }
                },
                None => {
                    i = i + 1;
                    proof {
                        assert(prev_entries.skip(i - 1)[0] == orig_entries.skip(jj)[0]);
                        assert(prev_tokens[i - 1] == orig[jj]);
                        lemma_interleaving_push_kept(
                            orig.take(jj),
                            prev_tokens.take(i - 1),
                            prev_fired,
                            orig[jj],
                        );
                        assert(orig.take(jj + 1) =~= orig.take(jj).push(orig[jj]));
                        assert(self.pending_tokens().take(i as int) =~= prev_tokens.take(
                            i - 1,
                        ).push(prev_tokens[i - 1]));
                        assert forall|k: int| i <= k < self.pending_entries().len() implies #[trigger] self.pending_entries()[k]
                            == orig_entries[k - i + jj + 1] by {
                            assert(prev_entries.skip(i - 1)[k - i + 1] == prev_entries[k]);
                            assert(orig_entries.skip(jj)[k - i + 1] == orig_entries[k - i + jj + 1]);
                        }
                        assert(self.pending_entries().skip(i as int) =~= orig_entries.skip(jj + 1));
                    }
                },
            }
        }
        proof {
            let ghost j = i + fired@.len() as int;
            assert(self.pending_entries().skip(i as int).len() == 0);
            assert(orig_entries.skip(j).len() == 0);
            assert(j == orig.len());
            assert(orig.take(j) =~= orig);
            assert(self.pending_tokens().take(i as int) =~= self.pending_tokens());
            lemma_scan_partitions(
                orig,
                self.pending_tokens(),
                fired@.map_values(|f: Firing| f.token),
            );
            assert forall|k: int| 0 <= k < self.pending_tokens().len()
                implies self.pending_tokens()[k] < self.next_token by {
                let kept = self.pending_tokens();
                lemma_elem_occurs(kept, k);
                lemma_occurs_index(orig, kept[k]);
            }
        }
        Ok(fired)
    }

    /// The receiving half of every event channel, for the application to
    /// drain at its own cadence.
    pub fn event_receivers(&self) -> (r: &EventReceivers)
        ensures
            *r == self.spec_receivers(),
    {
        &self.receivers
    }

    /// The sending halves of the event channels: the per-handle context
    /// block the native side pushes events through.
    pub fn event_senders(&self) -> (r: &EventSenders)
        ensures
            *r == self.spec_senders(),
    {
        &self.senders
    }

    /// Drains and discards every pending event on every category's channel
    /// without processing any of them. No continuation fires: the pending
    /// callback entries are not touched — this takes the handle immutably.
    pub fn empty_event_receivers(&self) {
        self.receivers.empty_channels();
    }
}

} // verus!
