//! The operation bridge: for each remote operation, what is checked, which
//! native call (if any) is made, and what the caller receives back.
//!
//! Each operation runs in two halves around the native call. The first half
//! consults the registry and either answers at once or names the call to
//! make; the second half turns the native status into the reply. Whoever
//! drives the native library performs the call in between.

use crate::registry::Registry;
use crate::text::{decimal, decimal_text, has_nul, holds_nul};
use vstd::prelude::*;
use vstd::string::StringExecFns;

verus! {

/// A request to open a new window.
#[derive(Debug, PartialEq, Eq)]
pub struct CreateRequest {
    pub title: String,
    pub url: String,
    pub width: i32,
    pub height: i32,
    pub resizable: bool,
    pub debug: bool,
    pub frameless: bool,
}

/// What an operation other than creation asks of an existing window.
#[derive(Debug, PartialEq, Eq)]
pub enum Command {
    Exit,
    Eval { js: String },
    SetColor { r: u8, g: u8, b: u8, a: u8 },
    SetTitle { title: String },
    SetFullscreen { fullscreen: bool },
    Loop { blocking: i32 },
    GetUserData,
}

/// The arguments of the native window-creation call, flags as integers.
#[derive(Debug, PartialEq, Eq)]
pub struct NativeWindow {
    pub title: String,
    pub url: String,
    pub width: i32,
    pub height: i32,
    pub resizable: i32,
    pub debug: i32,
    pub frameless: i32,
}

/// A native call on an existing window, flags as integers.
#[derive(Debug, PartialEq, Eq)]
pub enum NativeCall {
    Exit,
    Eval { js: String },
    SetColor { r: u8, g: u8, b: u8, a: u8 },
    SetTitle { title: String },
    SetFullscreen { fullscreen: i32 },
    Loop { blocking: i32 },
}

/// The payload of a successful reply.
#[derive(Debug, Clone, Copy, PartialEq, Eq, Structural)]
pub enum Outcome {
    /// Done, with nothing to report.
    Empty,
    /// A window was created under this identifier.
    Created { id: u32 },
    /// The status code of one event-loop step.
    Code { code: i32 },
}

/// Why an operation was refused.
#[derive(Debug, Clone, Copy, PartialEq, Eq, Structural)]
pub enum Failure {
    /// The identifier names no live window.
    NotFound { id: u32 },
    /// The native evaluator rejected the script.
    ScriptRejected,
    /// A text field holds a null character.
    NulInText,
    /// Every identifier has been issued.
    IdsExhausted,
}

/// The reply envelope: exactly one of a payload and a failure.
pub type Reply = Result<Outcome, Failure>;

/// The first half of an operation on an existing window.
#[derive(Debug, PartialEq, Eq)]
pub enum Step<H> {
    /// The operation is finished; no native call is to be made.
    Answer(Reply),
    /// The native call `call` is to be made on `handle`; its status then
    /// goes to [`finish`].
    Invoke { handle: H, call: NativeCall },
}

/// The native integer flag for a boolean.
pub open spec fn flag_of(b: bool) -> i32 {
    if b { 1 } else { 0 }
}

/// The text of a failure as the caller receives it.
pub open spec fn failure_text(f: Failure) -> Seq<char> {
    match f {
        Failure::NotFound { id } => "Could not find instance of id "@ + decimal(id as nat),
        Failure::ScriptRejected => "could not evaluate script"@,
        Failure::NulInText => "text holds a null character"@,
        Failure::IdsExhausted => "no instance identifiers are left"@,
    }
}

/// The native call that `cmd` asks for, where it asks for one.
pub open spec fn native_call_of(cmd: Command) -> Option<NativeCall> {
    match cmd {
        Command::Exit => Some(NativeCall::Exit),
        Command::Eval { js } => Some(NativeCall::Eval { js }),
        Command::SetColor { r, g, b, a } => Some(NativeCall::SetColor { r, g, b, a }),
        Command::SetTitle { title } => Some(NativeCall::SetTitle { title }),
        Command::SetFullscreen { fullscreen } => Some(
            NativeCall::SetFullscreen { fullscreen: flag_of(fullscreen) },
        ),
        Command::Loop { blocking } => Some(NativeCall::Loop { blocking }),
        Command::GetUserData => None,
    }
}

/// Whether a text field of `cmd` holds a null character.
pub open spec fn command_holds_nul(cmd: Command) -> bool {
    match cmd {
        Command::Eval { js } => holds_nul(js@),
        Command::SetTitle { title } => holds_nul(title@),
        _ => false,
    }
}

/// The first half of `cmd` on window `id`, given the live entries.
pub open spec fn step_of<H>(live: Map<u32, H>, id: u32, cmd: Command) -> Step<H> {
    if !live.contains_key(id) {
        Step::Answer(Err(Failure::NotFound { id }))
    } else if command_holds_nul(cmd) {
        Step::Answer(Err(Failure::NulInText))
    } else {
        match native_call_of(cmd) {
            Some(call) => Step::Invoke { handle: live[id], call },
            None => Step::Answer(Ok(Outcome::Empty)),
        }
    }
}

/// The live entries after the first half of `cmd` on window `id`: an exit
/// of a live window takes its entry out; nothing else changes them.
pub open spec fn live_after<H>(live: Map<u32, H>, id: u32, cmd: Command) -> Map<u32, H> {
    if cmd is Exit {
        live.remove(id)
    } else {
        live
    }
}

/// The reply once the native call `call` has reported `status`.
pub open spec fn reply_of(call: NativeCall, status: i32) -> Reply {
    match call {
        NativeCall::Eval { .. } => if status == 0 {
            Ok(Outcome::Empty)
        } else {
            Err(Failure::ScriptRejected)
        },
        NativeCall::Loop { .. } => Ok(Outcome::Code { code: status }),
        _ => Ok(Outcome::Empty),
    }
}

impl Failure {
    /// The message that the reply's `err` field carries.
    pub fn message(&self) -> (r: String)
        ensures
            r@ == failure_text(*self),
    {
        match self {
            Failure::NotFound { id } => {
                let digits = decimal_text(*id);
                String::from_str("Could not find instance of id ").concat(digits.as_str())
            },
            Failure::ScriptRejected => String::from_str("could not evaluate script"),
            Failure::NulInText => String::from_str("text holds a null character"),
            Failure::IdsExhausted => String::from_str("no instance identifiers are left"),
        }
    }
}

/// The native integer flag for a boolean: one for true, zero for false.
pub fn flag(b: bool) -> (r: i32)
    ensures
        r == flag_of(b),
{
    if b { 1 } else { 0 }
}

/// The first half of creation: checks the request and, where it can be
/// served, gives the arguments of the native creation call. Nothing is
/// recorded yet; [`register`] does that once the native window exists.
pub fn prepare_create<H>(reg: &Registry<H>, req: CreateRequest) -> (r: Result<
    NativeWindow,
    Failure,
>)
    requires
        reg.wf(),
    ensures
        (holds_nul(req.title@) || holds_nul(req.url@)) ==> r == Err::<NativeWindow, Failure>(
            Failure::NulInText,
        ),
        !(holds_nul(req.title@) || holds_nul(req.url@)) && !reg.can_allocate_spec() ==> r
            == Err::<NativeWindow, Failure>(Failure::IdsExhausted),
        !(holds_nul(req.title@) || holds_nul(req.url@)) && reg.can_allocate_spec() ==> r == Ok::<
            NativeWindow,
            Failure,
        >(
            (NativeWindow {
                title: req.title,
                url: req.url,
                width: req.width,
                height: req.height,
                resizable: flag_of(req.resizable),
                debug: flag_of(req.debug),
                frameless: flag_of(req.frameless),
            }),
        ),
{
    if has_nul(req.title.as_str()) || has_nul(req.url.as_str()) {
        return Err(Failure::NulInText);
    }
    if !reg.can_allocate() {
        return Err(Failure::IdsExhausted);
    }
    Ok(
        NativeWindow {
            title: req.title,
            url: req.url,
            width: req.width,
            height: req.height,
            resizable: flag(req.resizable),
            debug: flag(req.debug),
            frameless: flag(req.frameless),
        },
    )
}

/// The second half of creation: issues the next identifier and records the
/// new window's handle under it.
pub fn register<H>(reg: &mut Registry<H>, handle: H) -> (r: Reply)
    requires
        old(reg).wf(),
    ensures
        final(reg).wf(),
        old(reg).can_allocate_spec() ==> {
            &&& r == Ok::<Outcome, Failure>(Outcome::Created { id: old(reg).issued() as u32 })
            &&& final(reg).issued() == old(reg).issued() + 1
            &&& final(reg).live() == old(reg).live().insert(old(reg).issued() as u32, handle)
        },
        !old(reg).can_allocate_spec() ==> {
            &&& r == Err::<Outcome, Failure>(Failure::IdsExhausted)
            &&& final(reg).issued() == old(reg).issued()
            &&& final(reg).live() == old(reg).live()
        },
{
    match reg.allocate() {
        Some(id) => {
            reg.insert(id, handle);
            Ok(Outcome::Created { id })
        },
        None => Err(Failure::IdsExhausted),
    }
}

/// The first half of `cmd` on window `id`: answers at once where `id` names
/// no live window, where a text field holds a null character, or where no
/// native call is needed; otherwise names the native call to make. An exit
/// takes the window's entry out of the registry, so that its handle can
/// never be resolved again.
pub fn begin<H: Copy>(reg: &mut Registry<H>, id: u32, cmd: Command) -> (r: Step<H>)
    requires
        old(reg).wf(),
    ensures
        final(reg).wf(),
        r == step_of(old(reg).live(), id, cmd),
        final(reg).live() == live_after(old(reg).live(), id, cmd),
        final(reg).issued() == old(reg).issued(),
{
    let handle = match reg.get(id) {
        Some(h) => h,
        None => {
            return Step::Answer(Err(Failure::NotFound { id }));
        },
    };
    match cmd {
        Command::Exit => {
            reg.remove(id);
            Step::Invoke { handle, call: NativeCall::Exit }
        },
        Command::Eval { js } => {
            if has_nul(js.as_str()) {
                Step::Answer(Err(Failure::NulInText))
            } else {
                Step::Invoke { handle, call: NativeCall::Eval { js } }
            }
        },
        Command::SetColor { r, g, b, a } => Step::Invoke {
            handle,
            call: NativeCall::SetColor { r, g, b, a },
        },
        Command::SetTitle { title } => {
            if has_nul(title.as_str()) {
                Step::Answer(Err(Failure::NulInText))
            } else {
                Step::Invoke { handle, call: NativeCall::SetTitle { title } }
            }
        },
        Command::SetFullscreen { fullscreen } => Step::Invoke {
            handle,
            call: NativeCall::SetFullscreen { fullscreen: flag(fullscreen) },
        },
        Command::Loop { blocking } => Step::Invoke { handle, call: NativeCall::Loop { blocking } },
        Command::GetUserData => Step::Answer(Ok(Outcome::Empty)),
    }
}

/// The second half of an operation: the reply once the native call `call`
/// has reported `status`. A script evaluation fails on a non-zero status;
/// an event-loop step hands its status back as the result; the other calls
/// report nothing and succeed.
pub fn finish(call: &NativeCall, status: i32) -> (r: Reply)
    ensures
        r == reply_of(*call, status),
{
    match call {
        NativeCall::Eval { .. } => if status == 0 {
            Ok(Outcome::Empty)
        } else {
            Err(Failure::ScriptRejected)
        },
        NativeCall::Loop { .. } => Ok(Outcome::Code { code: status }),
        _ => Ok(Outcome::Empty),
    }
}

/// An operation other than creation, on an identifier that no creation has
/// returned, is refused as not found: no native call is named and the
/// registry's entries stay as they were.
pub proof fn lemma_unissued_id_refused<H>(reg: Registry<H>, id: u32, cmd: Command)
    requires
        reg.wf(),
        (id as nat) >= reg.issued(),
    ensures
        step_of(reg.live(), id, cmd) == Step::<H>::Answer(Err(Failure::NotFound { id })),
        live_after(reg.live(), id, cmd) == reg.live(),
{
    reg.lemma_unissued_not_live(id);
    if cmd is Exit {
        assert(reg.live().remove(id) =~= reg.live());
    }
}

/// Identifiers returned by successive creations strictly increase, and so
/// never repeat, whatever ran in between (exits included). `states` is a run
/// of registry states in which no step lowers the count of issued
/// identifiers, as no operation does; a creation at step `i` returns
/// `states[i].issued()` and raises the count by one, and a later creation
/// at step `j` returns `states[j].issued()`.
pub proof fn lemma_created_ids_increase<H>(states: Seq<Registry<H>>, i: int, j: int)
    requires
        forall|k: int|
            0 <= k < states.len() - 1 ==> #[trigger] states[k].issued() <= states[k + 1].issued(),
        0 <= i < j < states.len(),
        states[i + 1].issued() == states[i].issued() + 1,
    ensures
        states[i].issued() < states[j].issued(),
    decreases j - i,
{
    if j > i + 1 {
        lemma_created_ids_increase(states, i, j - 1);
        assert(states[j - 1].issued() <= states[j].issued());
    }
}

/// Exiting a window twice is safe: the first exit takes its entry out, so
/// the second is refused as not found, names no native call, and changes
/// nothing.
pub proof fn lemma_second_exit_not_found<H>(live: Map<u32, H>, id: u32)
    ensures
        step_of(live_after(live, id, Command::Exit), id, Command::Exit) == Step::<H>::Answer(
            Err(Failure::NotFound { id }),
        ),
        live_after(live_after(live, id, Command::Exit), id, Command::Exit) == live_after(
            live,
            id,
            Command::Exit,
        ),
{
    assert(live.remove(id).remove(id) =~= live.remove(id));
}

/// An event-loop step on a live window is always performed and never
/// fails: whatever status the native step reports comes back as the result.
pub proof fn lemma_loop_step_passes_status<H>(live: Map<u32, H>, id: u32, blocking: i32, code: i32)
    requires
        live.contains_key(id),
    ensures
        step_of(live, id, Command::Loop { blocking }) == (Step::Invoke {
            handle: live[id],
            call: NativeCall::Loop { blocking },
        }),
        reply_of(NativeCall::Loop { blocking }, code) == Ok::<Outcome, Failure>(
            Outcome::Code { code },
        ),
{
}

/// Script evaluation on a live window, with a script free of null
/// characters, is handed to the native evaluator; the reply is an empty
/// success when it reports zero and "could not evaluate script" otherwise.
pub proof fn lemma_eval_reply<H>(live: Map<u32, H>, id: u32, js: String, status: i32)
    requires
        live.contains_key(id),
        !holds_nul(js@),
    ensures
        step_of(live, id, Command::Eval { js }) == (Step::Invoke {
            handle: live[id],
            call: NativeCall::Eval { js },
        }),
        status == 0 ==> reply_of(NativeCall::Eval { js }, status) == Ok::<Outcome, Failure>(
            Outcome::Empty,
        ),
        status != 0 ==> reply_of(NativeCall::Eval { js }, status) == Err::<Outcome, Failure>(
            Failure::ScriptRejected,
        ),
        failure_text(Failure::ScriptRejected) == "could not evaluate script"@,
{
}

} // verus!
