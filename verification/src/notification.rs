//! The reminder toast: what it shows, and what comes back when the user
//! activates it.

use vstd::prelude::*;
use vstd::string::*;
use vstd::utf8::*;

verus! {

/// The scenario tag of the reminder toast.
pub const SCENARIO: &'static str = "reminder";

/// The text of the reminder toast.
pub const BODY: &'static str = "Time to let your eyes rest.";

/// The label of the button that asks for a timer.
pub const START_TIMER_LABEL: &'static str = "Start Timer";

/// The argument that comes back when the user presses the timer button.
pub const START_TIMER_ARGUMENT: &'static str = "start_timer";

/// The label of the button that closes the toast.
pub const DISMISS_LABEL: &'static str = "Dismiss";

/// The argument that comes back when the user presses the closing button.
pub const DISMISS_ARGUMENT: &'static str = "dismiss";

/// A button of a toast.
#[derive(Debug, Clone)]
pub struct ToastAction {
    /// What the button shows.
    pub label: String,
    /// What the notification service hands back when the button is pressed.
    pub argument: String,
}

/// A button of a toast, as plain text.
pub struct ToastActionView {
    pub label: Seq<char>,
    pub argument: Seq<char>,
}

impl View for ToastAction {
    type V = ToastActionView;

    open spec fn view(&self) -> ToastActionView {
        ToastActionView { label: self.label@, argument: self.argument@ }
    }
}

/// What one toast shows.
#[derive(Debug, Clone)]
pub struct NotificationPayload {
    /// The scenario tag, by which the notification service picks the toast's
    /// behaviour.
    pub scenario: String,
    /// The text.
    pub body: String,
    /// The buttons, in the order in which they are shown.
    pub actions: Vec<ToastAction>,
}

/// What one toast shows, as plain text.
pub struct PayloadView {
    pub scenario: Seq<char>,
    pub body: Seq<char>,
    pub actions: Seq<ToastActionView>,
}

impl View for NotificationPayload {
    type V = PayloadView;

    open spec fn view(&self) -> PayloadView {
        PayloadView {
            scenario: self.scenario@,
            body: self.body@,
            actions: self.actions@.map_values(|a: ToastAction| a@),
        }
    }
}

/// The reminder: its text, and its two buttons in the order in which they are
/// shown.
pub open spec fn reminder() -> PayloadView {
    PayloadView {
        scenario: "reminder"@,
        body: "Time to let your eyes rest."@,
        actions: seq![
            ToastActionView { label: "Start Timer"@, argument: "start_timer"@ },
            ToastActionView { label: "Dismiss"@, argument: "dismiss"@ },
        ],
    }
}

/// Builds the reminder toast. It is the same every time.
pub fn reminder_payload() -> (payload: NotificationPayload)
    ensures
        payload@ == reminder(),
{
    let mut actions: Vec<ToastAction> = Vec::new();
    actions.push(
        ToastAction {
            label: String::from_str(START_TIMER_LABEL),
            argument: String::from_str(START_TIMER_ARGUMENT),
        },
    );
    actions.push(
        ToastAction {
            label: String::from_str(DISMISS_LABEL),
            argument: String::from_str(DISMISS_ARGUMENT),
        },
    );
    let payload = NotificationPayload {
        scenario: String::from_str(SCENARIO),
        body: String::from_str(BODY),
        actions,
    };
    assert(payload@.actions =~= reminder().actions);
    payload
}

/// What the user did with a toast, as far as the notification service tells.
#[derive(Debug, Clone, Copy, PartialEq, Eq, Structural)]
pub enum Activation {
    /// The timer button was pressed. No timer exists yet: this has no effect.
    StartTimer,
    /// The closing button was pressed.
    Dismiss,
    /// Anything else: the toast's body was pressed, or the argument is unknown.
    Unrecognized,
}

/// The activation that an argument stands for.
pub open spec fn activation_of(argument: Seq<char>) -> Activation {
    if argument == "start_timer"@ {
        Activation::StartTimer
    } else if argument == "dismiss"@ {
        Activation::Dismiss
    } else {
        Activation::Unrecognized
    }
}

/// The two arguments that the reminder's buttons hand back are told apart, and
/// the empty argument, which comes back when the body of the toast is pressed,
/// is neither.
pub proof fn lemma_known_arguments()
    ensures
        activation_of("start_timer"@) == Activation::StartTimer,
        activation_of("dismiss"@) == Activation::Dismiss,
        activation_of(""@) == Activation::Unrecognized,
{
    reveal_strlit("start_timer");
    reveal_strlit("dismiss");
    reveal_strlit("");
    assert("dismiss"@.len() == 7);
    assert(""@.len() == 0);
}

/// Whether two texts are the same, character by character.
pub fn same_text(a: &str, b: &str) -> (same: bool)
    ensures
        same == (a@ == b@),
{
    let x = a.as_bytes();
    let y = b.as_bytes();
    proof {
        encode_utf8_decode_utf8(a@);
        encode_utf8_decode_utf8(b@);
    }
    if x.len() != y.len() {
        return false;
    }
    let mut i: usize = 0;
    while i < x.len()
        invariant
            i <= x.len(),
            x.len() == y.len(),
            x@ == a.spec_bytes(),
            y@ == b.spec_bytes(),
            forall|j: int| 0 <= j < i ==> x@[j] == y@[j],
        decreases x.len() - i,
    {
        if x[i] != y[i] {
            return false;
        }
        i = i + 1;
    }
    assert(x@ =~= y@);
    true
}

/// Reads the argument that the notification service hands back when a toast is
/// activated.
pub fn parse_activation(argument: &str) -> (activation: Activation)
    ensures
        activation == activation_of(argument@),
{
    if same_text(argument, START_TIMER_ARGUMENT) {
        Activation::StartTimer
    } else if same_text(argument, DISMISS_ARGUMENT) {
        Activation::Dismiss
    } else {
        Activation::Unrecognized
    }
}

} // verus!
