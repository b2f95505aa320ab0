//! A command line run: the commands that its words name, run in order.
use vstd::prelude::*;

use crate::camera::{Camera, Step, StepView};
use crate::command::{
    Command, CommandError, CommandView, cmds, command_fits, command_plan, parse_command, parse_words,
    word_bytes,
};
use crate::error::Errno;

verus! {

/// Why a run stops the program.
#[derive(Clone, Copy, Debug, PartialEq, Eq, Structural)]
pub enum Abort {
    /// A `hex` command carries this many bytes, more than one frame holds.
    Oversized(usize),
    /// The camera failed a command with this error.
    Failed(Errno),
}

/// What the run asks of its caller next.
#[derive(Debug, PartialEq, Eq)]
pub enum Order {
    /// Carry out the exchange of these steps with the camera, and show what
    /// it reads when `show` holds; then report the outcome to `after`.
    Run { plan: Vec<Step>, show: bool },
    /// Stop the program.
    Abort(Abort),
    /// The word at index `word` names no command: the run ends with the
    /// "invalid argument" error, after the commands before it have run.
    Reject { word: usize, error: CommandError },
    /// Every command ran.
    Done,
}

/// An `Order` as a mathematical value.
pub enum OrderView {
    Run { plan: Seq<StepView>, show: bool },
    Abort(Abort),
    Reject { word: nat, error: CommandError },
    Done,
}

impl DeepView for Order {
    type V = OrderView;

    open spec fn deep_view(&self) -> OrderView {
        match self {
            Order::Run { plan, show } => OrderView::Run { plan: plan.deep_view(), show: *show },
            Order::Abort(a) => OrderView::Abort(*a),
            Order::Reject { word, error } => OrderView::Reject { word: *word as nat, error: *error },
            Order::Done => OrderView::Done,
        }
    }
}

/// The state of a `Session` as a mathematical value: the commands that the
/// words name, up to the first that names none, why that one names none, and
/// the index of the command whose order was given last.
pub struct SessionView {
    pub commands: Seq<CommandView>,
    pub failure: Option<CommandError>,
    pub next: nat,
}

/// The order for command `i` of the run `v`, or for its end.
pub open spec fn order_at(v: SessionView, i: nat) -> OrderView {
    if i < v.commands.len() {
        let c = v.commands[i as int];
        if command_fits(c) {
            OrderView::Run { plan: command_plan(c), show: c is Dump }
        } else {
            OrderView::Abort(Abort::Oversized(c->Hex_0.len() as usize))
        }
    } else {
        match v.failure {
            Some(e) => OrderView::Reject { word: v.commands.len(), error: e },
            None => OrderView::Done,
        }
    }
}

/// The run of the command line words `words`, before its first command.
pub open spec fn session_start(words: Seq<String>) -> SessionView {
    let parsed = parse_words(words.map_values(|w: String| word_bytes(w)));
    SessionView { commands: parsed.0, failure: parsed.1, next: 0 }
}

/// A command line run.
pub struct Session {
    commands: Vec<Command>,
    failure: Option<CommandError>,
    next: usize,
}

impl View for Session {
    type V = SessionView;

    closed spec fn view(&self) -> SessionView {
        SessionView {
            commands: self.commands.deep_view(),
            failure: self.failure,
            next: self.next as nat,
        }
    }
}

impl Session {
    #[verifier::type_invariant]
    closed spec fn inv(&self) -> bool {
        self.next <= self.commands@.len()
    }

    /// The order for command `next`, or for the end of the run.
    fn order(&self, camera: &Camera) -> (o: Order)
        ensures
            o.deep_view() == order_at(self@, self@.next),
    {
        proof {
            use_type_invariant(self);
        }
        if self.next < self.commands.len() {
            let c = &self.commands[self.next];
            if c.fits() {
                let show = match c {
                    Command::Dump => true,
                    _ => false,
                };
                Order::Run { plan: camera.plan(c), show }
            } else {
                let size = match c {
                    Command::Hex(data) => data.len(),
                    _ => 0,
                };
                Order::Abort(Abort::Oversized(size))
            }
        } else {
            match self.failure {
                Some(e) => Order::Reject { word: self.commands.len(), error: e },
                None => Order::Done,
            }
        }
    }

    /// Starts the run of the command line words `words`, and gives the order
    /// for its first command.
    pub fn new(words: &[String], camera: &Camera) -> (r: (Session, Order))
        ensures
            r.0@ == session_start(words@),
            r.1.deep_view() == order_at(r.0@, 0),
    {
        let (commands, failure) = cmds(words);
        let s = Session { commands, failure, next: 0 };
        let o = s.order(camera);
        (s, o)
    }

    /// Whether the last order was to run a command, whose outcome `after` takes.
    pub fn running(&self) -> (b: bool)
        ensures
            b == (self@.next < self@.commands.len()),
    {
        self.next < self.commands.len()
    }

    /// Takes the outcome of the command that the last order ran: a failure
    /// stops the program, a success moves on to the next command.
    pub fn after(self, camera: &Camera, outcome: Result<(), Errno>) -> (r: (Session, Order))
        requires
            self@.next < self@.commands.len(),
        ensures
            match outcome {
                Err(e) => r.0@ == self@ && r.1.deep_view() == OrderView::Abort(Abort::Failed(e)),
                Ok(()) => r.0@ == (SessionView { next: self@.next + 1, ..self@ })
                    && r.1.deep_view() == order_at(r.0@, self@.next + 1),
            },
    {
        match outcome {
            Err(e) => (self, Order::Abort(Abort::Failed(e))),
            Ok(()) => {
                let Session { commands, failure, next } = self;
                let count = commands.len();
                assert(next < count);
                let s = Session { commands, failure, next: next + 1 };
                let o = s.order(camera);
                (s, o)
            },
        }
    }
}

/// Words that all name commands name one command each.
proof fn lemma_words_all_commands(a: Seq<Seq<u8>>)
    requires
        parse_words(a).1 is None,
    ensures
        parse_words(a).0.len() == a.len(),
    decreases a.len(),
{
    if a.len() > 0 {
        lemma_words_all_commands(a.drop_first());
    }
}

/// A word that names no command is refused with the "invalid argument" error
/// once the commands of the words before it have run, and nothing is sent
/// for it or for the words after it: the orders before it run the commands
/// of the words before it, one each.
pub proof fn law_rejected_word(words: Seq<String>, k: nat, e: CommandError)
    requires
        k < words.len(),
        parse_words(words.take(k as int).map_values(|w: String| word_bytes(w))).1 is None,
        parse_command(word_bytes(words[k as int])) == Err::<CommandView, CommandError>(e),
    ensures
        session_start(words).commands.len() == k,
        order_at(session_start(words), k) == (OrderView::Reject { word: k, error: e }),
        forall|i: nat|
            i < k ==> !(#[trigger] order_at(session_start(words), i) is Reject)
                && !(order_at(session_start(words), i) is Done),
{
    let all = words.map_values(|w: String| word_bytes(w));
    let a = words.take(k as int).map_values(|w: String| word_bytes(w));
    let rest = words.skip((k + 1) as int).map_values(|w: String| word_bytes(w));
    assert(all =~= a + seq![word_bytes(words[k as int])] + rest);
    crate::laws::law_words_stop_at_failure(a, word_bytes(words[k as int]), rest, e);
    lemma_words_all_commands(a);
}

} // verus!
