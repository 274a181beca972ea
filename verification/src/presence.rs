use vstd::prelude::*;

use crate::activity::{ActivityData, Button, Image, Timestamp};
use crate::text::{spec_decimal, u64_to_string};

verus! {

/// The process configuration assembled at startup: how to reach the
/// display client and where the script text came from.
#[derive(Debug)]
pub struct Disco {
    /// Seconds between connection retries; zero means fail fast.
    pub retry_after: usize,
    /// Parse and watch, but never connect or publish.
    pub dry_run: bool,
    /// An application identifier supplied outside the script, taking
    /// precedence over the script's own.
    pub application_id: Option<u64>,
    /// The full text of the configuration script.
    pub config_data: String,
}

/// The one authoritative combined presence state: per field the most
/// recently received value, plus the active flag. Owned and mutated by
/// the aggregator alone.
#[derive(Debug, Clone, PartialEq)]
pub struct DiscoActivity {
    pub active: bool,
    pub state: Option<String>,
    pub details: Option<String>,
    pub timestamp: Option<Timestamp>,
    pub button1: Option<Button>,
    pub button2: Option<Button>,
    pub large_image: Option<Image>,
    pub small_image: Option<Image>,
}

/// What one publish call carries: every currently stored field, with
/// the buttons in first-then-second order. Fields with no stored value
/// are absent.
#[derive(Debug, Clone, PartialEq)]
pub struct Payload {
    pub state: Option<String>,
    pub details: Option<String>,
    pub timestamp: Option<Timestamp>,
    pub buttons: Vec<Button>,
    pub large_image: Option<Image>,
    pub small_image: Option<Image>,
}

/// The external effect one aggregated update asks for: publish the
/// given payload, clear the display, or touch nothing.
#[derive(Debug, Clone, PartialEq)]
pub enum Effect {
    Publish(Payload),
    Clear,
    Silent,
}

/// The empty presence state the process starts from: inactive, nothing
/// stored.
pub open spec fn spec_initial() -> DiscoActivity {
    DiscoActivity {
        active: false,
        state: Option::None,
        details: Option::None,
        timestamp: Option::None,
        button1: Option::None,
        button2: Option::None,
        large_image: Option::None,
        small_image: Option::None,
    }
}

/// Aggregation of one update: the named field is overwritten with the
/// new value, last write wins, every other field untouched.
pub open spec fn spec_apply(st: DiscoActivity, u: ActivityData) -> DiscoActivity {
    match u {
        ActivityData::Active(b) => DiscoActivity { active: b, ..st },
        ActivityData::State(s) => DiscoActivity { state: Option::Some(s), ..st },
        ActivityData::Details(s) => DiscoActivity { details: Option::Some(s), ..st },
        ActivityData::Timestamp(t) => DiscoActivity { timestamp: Option::Some(t), ..st },
        ActivityData::FirstButton(b) => DiscoActivity { button1: Option::Some(b), ..st },
        ActivityData::SecondButton(b) => DiscoActivity { button2: Option::Some(b), ..st },
        ActivityData::LargeImage(i) => DiscoActivity { large_image: Option::Some(i), ..st },
        ActivityData::SmallImage(i) => DiscoActivity { small_image: Option::Some(i), ..st },
    }
}

/// A whole sequence of updates aggregated in arrival order.
pub open spec fn spec_apply_all(st: DiscoActivity, us: Seq<ActivityData>) -> DiscoActivity
    decreases us.len(),
{
    if us.len() == 0 {
        st
    } else {
        spec_apply(spec_apply_all(st, us.drop_last()), us.last())
    }
}

/// The button list a payload shows: first button then second, each
/// only if stored.
pub open spec fn spec_buttons(b1: Option<Button>, b2: Option<Button>) -> Seq<Button> {
    match (b1, b2) {
        (Option::None, Option::None) => Seq::empty(),
        (Option::Some(x), Option::None) => seq![x],
        (Option::None, Option::Some(y)) => seq![y],
        (Option::Some(x), Option::Some(y)) => seq![x, y],
    }
}

/// A payload shows exactly the stored fields of a state (the active
/// flag itself is not part of the payload).
pub open spec fn payload_matches(p: Payload, st: DiscoActivity) -> bool {
    &&& p.state == st.state
    &&& p.details == st.details
    &&& p.timestamp == st.timestamp
    &&& p.buttons@ == spec_buttons(st.button1, st.button2)
    &&& p.large_image == st.large_image
    &&& p.small_image == st.small_image
}

/// Whether aggregating `u` into `st` ends in a publish call: every
/// update publishes the new state while it is active, except the
/// deactivation itself, which clears instead.
pub open spec fn spec_publishes(st: DiscoActivity, u: ActivityData) -> bool {
    u != ActivityData::Active(false) && spec_apply(st, u).active
}

fn clone_opt_string(o: &Option<String>) -> (r: Option<String>)
    ensures
        r == *o,
{
    match o {
        Option::Some(s) => Option::Some(s.clone()),
        Option::None => Option::None,
    }
}

fn clone_opt_button(o: &Option<Button>) -> (r: Option<Button>)
    ensures
        r == *o,
{
    match o {
        Option::Some(b) => Option::Some(Button { text: b.text.clone(), url: b.url.clone() }),
        Option::None => Option::None,
    }
}

fn clone_opt_image(o: &Option<Image>) -> (r: Option<Image>)
    ensures
        r == *o,
{
    match o {
        Option::Some(i) => Option::Some(
            Image { asset: i.asset.clone(), text: clone_opt_string(&i.text) },
        ),
        Option::None => Option::None,
    }
}

impl DiscoActivity {
    /// The empty presence state: inactive, nothing stored.
    pub fn new() -> (r: Self)
        ensures
            r == spec_initial(),
    {
        Self {
            active: false,
            state: Option::None,
            details: Option::None,
            timestamp: Option::None,
            button1: Option::None,
            button2: Option::None,
            large_image: Option::None,
            small_image: Option::None,
        }
    }

    /// The publisher's view of this state: while active, the payload
    /// of every stored field; while inactive, nothing to show.
    pub fn process(&self) -> (r: Option<Payload>)
        ensures
            self.active <==> r is Some,
            r matches Option::Some(p) ==> payload_matches(p, *self),
    {
        if !self.active {
            return Option::None;
        }
        let mut buttons: Vec<Button> = Vec::new();
        if let Option::Some(b) = &self.button1 {
            buttons.push(Button { text: b.text.clone(), url: b.url.clone() });
        }
        if let Option::Some(b) = &self.button2 {
            buttons.push(Button { text: b.text.clone(), url: b.url.clone() });
        }
        proof {
            assert(buttons@ =~= spec_buttons(self.button1, self.button2));
        }
        Option::Some(
            Payload {
                state: clone_opt_string(&self.state),
                details: clone_opt_string(&self.details),
                timestamp: self.timestamp,
                buttons,
                large_image: clone_opt_image(&self.large_image),
                small_image: clone_opt_image(&self.small_image),
            },
        )
    }

    /// Aggregates one received update, last write wins, and returns
    /// the effect owed to the display client: deactivation clears,
    /// anything else publishes the new combined state while it is
    /// active and stays silent while it is not.
    pub fn apply_update(&mut self, u: ActivityData) -> (e: Effect)
        ensures
            *final(self) == spec_apply(*old(self), u),
            (e is Clear) <==> u == ActivityData::Active(false),
            (e is Publish) <==> spec_publishes(*old(self), u),
            e matches Effect::Publish(p) ==> payload_matches(p, *final(self)),
    {
        match u {
            ActivityData::Active(b) => {
                self.active = b;
                if !b {
                    return Effect::Clear;
                }
            },
            ActivityData::State(s) => {
                self.state = Option::Some(s);
            },
            ActivityData::Details(s) => {
                self.details = Option::Some(s);
            },
            ActivityData::Timestamp(t) => {
                self.timestamp = Option::Some(t);
            },
            ActivityData::FirstButton(b) => {
                self.button1 = Option::Some(b);
            },
            ActivityData::SecondButton(b) => {
                self.button2 = Option::Some(b);
            },
            ActivityData::LargeImage(i) => {
                self.large_image = Option::Some(i);
            },
            ActivityData::SmallImage(i) => {
                self.small_image = Option::Some(i);
            },
        }
        match self.process() {
            Option::Some(p) => Effect::Publish(p),
            Option::None => Effect::Silent,
        }
    }
}

/// A field update other than a state text never touches the stored
/// state text, however many arrive.
proof fn lemma_state_preserved(st: DiscoActivity, us: Seq<ActivityData>)
    requires
        forall|i: int| 0 <= i < us.len() ==> !(us[i] is State),
    ensures
        forall|i: int|
            0 <= i <= us.len() ==> spec_apply_all(st, us.take(i)).state == st.state,
    decreases us.len(),
{
    if us.len() == 0 {
        assert(us.take(0) =~= Seq::<ActivityData>::empty());
    } else {
        let front = us.drop_last();
        assert forall|i: int| 0 <= i < front.len() implies !(front[i] is State) by {
            assert(front[i] == us[i]);
        }
        lemma_state_preserved(st, front);
        assert forall|i: int|
            0 <= i <= us.len() implies spec_apply_all(st, us.take(i)).state == st.state by {
            if i < us.len() {
                assert(us.take(i) =~= front.take(i));
            } else {
                assert(us.take(i) =~= us);
                assert(front.take(front.len() as int) =~= front);
                assert(!(us.last() is State));
            }
        }
    }
}

/// While the presence is inactive, updates that do not set the active
/// flag to true leave it inactive.
proof fn lemma_inactive_preserved(st: DiscoActivity, us: Seq<ActivityData>)
    requires
        !st.active,
        forall|i: int| 0 <= i < us.len() ==> us[i] != ActivityData::Active(true),
    ensures
        forall|i: int| 0 <= i <= us.len() ==> !spec_apply_all(st, us.take(i)).active,
    decreases us.len(),
{
    if us.len() == 0 {
        assert(us.take(0) =~= Seq::<ActivityData>::empty());
    } else {
        let front = us.drop_last();
        assert forall|i: int| 0 <= i < front.len() implies front[i] != ActivityData::Active(
            true,
        ) by {
            assert(front[i] == us[i]);
        }
        lemma_inactive_preserved(st, front);
        assert forall|i: int| 0 <= i <= us.len() implies !spec_apply_all(st, us.take(i)).active by {
            if i < us.len() {
                assert(us.take(i) =~= front.take(i));
            } else {
                assert(us.take(i) =~= us);
                assert(front.take(front.len() as int) =~= front);
                assert(us.last() != ActivityData::Active(true));
            }
        }
    }
}

/// Aggregation is last write wins per field: once the state text has
/// been set to `b` (after an earlier `a`), every later combined state
/// — and with it every published payload, which shows the stored state
/// text — carries `b`, for any interleaving of updates to other
/// fields.
pub proof fn lemma_last_write_wins(
    st: DiscoActivity,
    a: String,
    b: String,
    rest: Seq<ActivityData>,
)
    requires
        forall|i: int| 0 <= i < rest.len() ==> !(rest[i] is State),
    ensures
        forall|i: int|
            0 <= i <= rest.len() ==> spec_apply_all(
                spec_apply(spec_apply(st, ActivityData::State(a)), ActivityData::State(b)),
                rest.take(i),
            ).state == Option::Some(b),
{
    let st2 = spec_apply(spec_apply(st, ActivityData::State(a)), ActivityData::State(b));
    assert(st2.state == Option::Some(b));
    lemma_state_preserved(st2, rest);
}

/// Deactivation clears exactly once and suppresses publishing: the
/// `Active(false)` update itself asks for a clear, never a publish,
/// and no later update asks for a publish until one sets `Active` to
/// true again.
pub proof fn lemma_deactivate_suppresses(st: DiscoActivity, rest: Seq<ActivityData>)
    requires
        forall|i: int| 0 <= i < rest.len() ==> rest[i] != ActivityData::Active(true),
    ensures
        !spec_publishes(st, ActivityData::Active(false)),
        forall|i: int|
            0 <= i < rest.len() ==> !spec_publishes(
                spec_apply_all(spec_apply(st, ActivityData::Active(false)), rest.take(i)),
                rest[i],
            ),
{
    let st0 = spec_apply(st, ActivityData::Active(false));
    lemma_inactive_preserved(st0, rest);
    assert forall|i: int| 0 <= i < rest.len() implies !spec_publishes(
        spec_apply_all(st0, rest.take(i)),
        rest[i],
    ) by {
        let sti = spec_apply_all(st0, rest.take(i));
        assert(!sti.active);
        if rest[i] != ActivityData::Active(false) {
            assert(!spec_apply(sti, rest[i]).active);
        }
    }
}

/// Setting `Active` back to true after a false republishes with the
/// last stored values of every other field: the false transition
/// leaves them untouched, so the state published on reactivation is
/// the old state with only the active flag raised.
pub proof fn lemma_reactivate_republishes(st: DiscoActivity)
    ensures
        spec_publishes(spec_apply(st, ActivityData::Active(false)), ActivityData::Active(true)),
        spec_apply(spec_apply(st, ActivityData::Active(false)), ActivityData::Active(true)) == (
        DiscoActivity { active: true, ..st }),
{
}

/// The fatal startup errors that abort the process before any watcher
/// starts.
#[derive(Clone, Copy, Debug, PartialEq, Eq, Structural)]
pub enum StartupError {
    /// Neither an override nor the script supplied an application
    /// identifier.
    MissingApplicationId,
}

/// Picks the application identifier the client connects under: an
/// override supplied outside the script wins and is shown in decimal;
/// otherwise the script's own identifier is taken as it stands; with
/// neither, startup is fatal.
pub fn resolve_application_id(override_id: Option<u64>, script_id: Option<String>) -> (r: Result<
    String,
    StartupError,
>)
    ensures
        override_id matches Option::Some(n) ==> (r matches Result::Ok(s) && s@ == spec_decimal(
            n as nat,
        )),
        override_id is None ==> (script_id matches Option::Some(s) ==> r == Result::Ok::<
            String,
            StartupError,
        >(s)),
        override_id is None && script_id is None ==> r == Result::Err::<String, StartupError>(
            StartupError::MissingApplicationId,
        ),
{
    match override_id {
        Option::Some(n) => Result::Ok(u64_to_string(n)),
        Option::None => match script_id {
            Option::Some(s) => Result::Ok(s),
            Option::None => Result::Err(StartupError::MissingApplicationId),
        },
    }
}

/// What the bootstrapper does after a failed connection attempt: with
/// no retry delay configured it gives up fatally, otherwise it sleeps
/// the configured delay and tries again, indefinitely.
#[derive(Clone, Copy, Debug, PartialEq, Eq, Structural)]
pub enum ConnectPlan {
    GiveUp,
    RetryAfter(usize),
}

/// The bootstrapper's retry decision for one failed connection
/// attempt.
pub fn connect_failure_plan(retry_after: usize) -> (r: ConnectPlan)
    ensures
        retry_after == 0 ==> r == ConnectPlan::GiveUp,
        retry_after > 0 ==> r == ConnectPlan::RetryAfter(retry_after),
{
    if retry_after == 0 {
        ConnectPlan::GiveUp
    } else {
        ConnectPlan::RetryAfter(retry_after)
    }
}

} // verus!
