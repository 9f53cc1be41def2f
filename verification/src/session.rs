//! The per-request automation session.
//!
//! Each inbound navigate request opens its own short-lived session against
//! the supervised process, performs one navigation, and closes the session
//! again — strictly in that order, and the close is attempted even when the
//! navigation failed. The session flow is a state machine over the outcomes
//! of the three outside calls; the caller performs the calls and feeds each
//! outcome back in. Nothing is shared between two flows: every request owns
//! its own `SessionFlow` value.

use thirtyfour::ChromiumLikeCapabilities;
use vstd::prelude::*;
use vstd::string::StringExecFns;

use crate::decimal::dec_seq;
use crate::decimal::u16_to_decimal;
use crate::error::Error;
use crate::http::ServerError;

verus! {

/// Declares `thirtyfour::ChromeCapabilities`, the browser-launch
/// capability profile handed to the driver when a session is opened.
#[verifier::external_type_specification]
#[verifier::external_body]
pub struct ExChromeCapabilities(thirtyfour::ChromeCapabilities);

/// The command-line arguments that a capability profile asks the browser
/// to be launched with, in the order they were added.
pub uninterp spec fn chrome_args_of(c: thirtyfour::ChromeCapabilities) -> Seq<Seq<char>>;

/// Relies on `DesiredCapabilities::chrome` (`ChromeCapabilities::new`): a
/// fresh Chrome profile whose browser-argument list is empty (`new` only
/// sets the browser name; the args option is absent until one is added).
#[verifier::external_body]
fn new_chrome_capabilities() -> (c: thirtyfour::ChromeCapabilities)
    ensures
        chrome_args_of(c) == Seq::<Seq<char>>::empty(),
{
    thirtyfour::DesiredCapabilities::chrome()
}

/// Relies on `ChromiumLikeCapabilities::add_arg`: the argument is appended
/// to the profile's browser-argument list unless it is already present, in
/// which case the list is unchanged. The call always succeeds on a Chrome
/// profile: its only failure paths serialize a list of strings, or a JSON
/// value already built, and neither can fail.
#[verifier::external_body]
fn add_chrome_arg(c: &mut thirtyfour::ChromeCapabilities, arg: &str) -> (r: Result<
    (),
    thirtyfour::error::WebDriverError,
>)
    ensures
        r is Ok,
        chrome_args_of(*final(c)) == if chrome_args_of(*old(c)).contains(arg@) {
            chrome_args_of(*old(c))
        } else {
            chrome_args_of(*old(c)).push(arg@)
        },
{
    c.add_arg(arg)
}

/// The fixed capability profile every session is opened with: the browser
/// runs without the OS sandbox and headless, and nothing else is asked of
/// it. Building the profile always succeeds.
pub fn session_capabilities() -> (r: Result<thirtyfour::ChromeCapabilities, Error>)
    ensures
        r matches Ok(c) && chrome_args_of(c) =~= seq!["--no-sandbox"@, "--headless"@],
{
    proof {
        reveal_strlit("--no-sandbox");
        reveal_strlit("--headless");
        assert("--no-sandbox"@.len() == 12);
        assert("--headless"@.len() == 10);
    }
    let mut c = new_chrome_capabilities();
    match add_chrome_arg(&mut c, "--no-sandbox") {
        Ok(()) => (),
        Err(e) => {
            proof {
                assert(false);
            }
            return Err(Error::WebDriverError(e));
        },
    }
    match add_chrome_arg(&mut c, "--headless") {
        Ok(()) => (),
        Err(e) => {
            proof {
                assert(false);
            }
            return Err(Error::WebDriverError(e));
        },
    }
    Ok(c)
}

/// The endpoint URL a session is opened against:
/// `http://localhost:<port>`.
pub fn webdriver_url(port: u16) -> (s: String)
    ensures
        s@ == "http://localhost:"@ + dec_seq(port as nat),
{
    let mut s = String::from_str("http://localhost:");
    let digits = u16_to_decimal(port);
    s.append(digits.as_str());
    s
}

/// Where one request's session stands.
#[derive(Debug)]
pub enum SessionPhase {
    /// The session is being opened.
    Opening,
    /// The session is open; the navigation is being performed.
    Navigating,
    /// The navigation finished with the recorded outcome; the session is
    /// being closed.
    Closing { nav_ok: bool },
    /// The request is complete with the recorded outcome.
    Done { ok: bool },
}

/// The outcome of one outside call, fed back into the flow.
#[derive(Debug)]
pub enum SessionEvent {
    /// Opening the session succeeded or failed.
    OpenResult { ok: bool },
    /// The navigation succeeded or failed.
    NavigateResult { ok: bool },
    /// Closing the session succeeded or failed.
    CloseResult { ok: bool },
}

/// What the caller must do next.
#[derive(Debug)]
pub enum SessionAction {
    /// Perform the navigation on the open session.
    Navigate,
    /// Close the session.
    Close,
    /// Answer the request with the flow's outcome.
    Respond,
}

/// True when `ev` is the kind of outcome the phase is waiting for.
pub open spec fn event_fits(p: SessionPhase, ev: SessionEvent) -> bool {
    match p {
        SessionPhase::Opening => ev is OpenResult,
        SessionPhase::Navigating => ev is NavigateResult,
        SessionPhase::Closing { .. } => ev is CloseResult,
        SessionPhase::Done { .. } => false,
    }
}

/// One step of the session flow: the next phase and the action owed.
///
/// An open failure ends the request at once (there is no session to
/// close). After the navigation the session is closed whatever the
/// navigation's outcome was. A close failure is not escalated: the
/// navigation's outcome alone determines the answer.
pub open spec fn spec_step(p: SessionPhase, ev: SessionEvent) -> (SessionPhase, SessionAction) {
    match (p, ev) {
        (SessionPhase::Opening, SessionEvent::OpenResult { ok }) => {
            if ok {
                (SessionPhase::Navigating, SessionAction::Navigate)
            } else {
                (SessionPhase::Done { ok: false }, SessionAction::Respond)
            }
        },
        (SessionPhase::Navigating, SessionEvent::NavigateResult { ok }) => {
            (SessionPhase::Closing { nav_ok: ok }, SessionAction::Close)
        },
        (SessionPhase::Closing { nav_ok }, SessionEvent::CloseResult { .. }) => {
            (SessionPhase::Done { ok: nav_ok }, SessionAction::Respond)
        },
        _ => (p, SessionAction::Respond),
    }
}

/// One request's session flow. Each request owns its own value; no state
/// is shared between two flows.
#[derive(Debug)]
pub struct SessionFlow {
    /// Where the flow stands.
    pub phase: SessionPhase,
}

impl SessionFlow {
    /// A fresh flow: about to open its session.
    pub fn new() -> (f: SessionFlow)
        ensures
            f.phase is Opening,
    {
        SessionFlow { phase: SessionPhase::Opening }
    }

    /// Feeds the outcome of the pending outside call into the flow and
    /// returns the action owed next.
    pub fn step(&mut self, ev: SessionEvent) -> (a: SessionAction)
        requires
            event_fits(old(self).phase, ev),
        ensures
            (final(self).phase, a) == spec_step(old(self).phase, ev),
    {
        match (&self.phase, &ev) {
            (SessionPhase::Opening, SessionEvent::OpenResult { ok }) => {
                if *ok {
                    self.phase = SessionPhase::Navigating;
                    SessionAction::Navigate
                } else {
                    self.phase = SessionPhase::Done { ok: false };
                    SessionAction::Respond
                }
            },
            (SessionPhase::Navigating, SessionEvent::NavigateResult { ok }) => {
                self.phase = SessionPhase::Closing { nav_ok: *ok };
                SessionAction::Close
            },
            (SessionPhase::Closing { nav_ok }, SessionEvent::CloseResult { .. }) => {
                let done = *nav_ok;
                self.phase = SessionPhase::Done { ok: done };
                SessionAction::Respond
            },
            _ => {
                proof {
                    assert(false);
                }
                SessionAction::Respond
            },
        }
    }

    /// The answer a finished flow owes: `ok` on success, the collapsed
    /// driver failure otherwise.
    pub fn response(&self) -> (r: Result<String, ServerError>)
        requires
            self.phase is Done,
        ensures
            self.phase matches SessionPhase::Done { ok } ==> {
                &&& ok ==> (r matches Ok(s) && s@ == "ok"@)
                &&& !ok ==> (r matches Err(e) && e is WebDriverError)
            },
    {
        match &self.phase {
            SessionPhase::Done { ok: true } => Ok(String::from_str("ok")),
            _ => Err(ServerError::WebDriverError),
        }
    }
}

/// The whole of one request's driver interaction, over the outcomes of the
/// three outside calls: `ok` exactly when the session opened and the
/// navigation succeeded; every other run collapses to the one driver
/// failure. The close outcome never changes the answer.
pub fn navigate_outcome(open_ok: bool, nav_ok: bool, close_ok: bool) -> (r: Result<
    String,
    ServerError,
>)
    ensures
        open_ok && nav_ok ==> (r matches Ok(s) && s@ == "ok"@),
        !(open_ok && nav_ok) ==> (r matches Err(e) && e is WebDriverError),
{
    let mut flow = SessionFlow::new();
    let a = flow.step(SessionEvent::OpenResult { ok: open_ok });
    if matches!(a, SessionAction::Navigate) {
        flow.step(SessionEvent::NavigateResult { ok: nav_ok });
        flow.step(SessionEvent::CloseResult { ok: close_ok });
    }
    flow.response()
}

/// The close is attempted even when the navigation failed: from the
/// navigating phase, both outcomes of the navigation owe a `Close` before
/// the flow can answer.
pub proof fn lemma_close_attempted_after_navigate(nav_ok: bool)
    ensures
        spec_step(SessionPhase::Navigating, SessionEvent::NavigateResult { ok: nav_ok }).1
            is Close,
{
}

/// The outcomes of every complete run: a healthy driver (open and
/// navigation succeed) answers success; a driver that does not accept the
/// session or fails the navigation answers the collapsed driver failure,
/// whatever the close outcome was.
pub proof fn lemma_run_outcomes(open_ok: bool, nav_ok: bool, close_ok: bool)
    ensures
        ({
            let (p1, _) = spec_step(
                SessionPhase::Opening,
                SessionEvent::OpenResult { ok: open_ok },
            );
            if open_ok {
                let (p2, _) = spec_step(p1, SessionEvent::NavigateResult { ok: nav_ok });
                let (p3, _) = spec_step(p2, SessionEvent::CloseResult { ok: close_ok });
                p3 == (SessionPhase::Done { ok: nav_ok })
            } else {
                p1 == (SessionPhase::Done { ok: false })
            }
        }),
{
}

} // verus!
