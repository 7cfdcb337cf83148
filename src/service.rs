//! The connection lifecycle and the prompts of the conversational operations.
use vstd::prelude::*;
use vstd::string::StringExecFns;
use crate::copilot::{CopilotAvailability, CopilotError};
use crate::text::decimal;
use crate::text::decimal_text;

verus! {

/// Context about the learner's current state, used to decorate a prompt.
/// The accuracy is held as a whole percentage, rounded.
#[derive(Debug, Clone)]
pub struct LearningContext {
    pub current_level: u32,
    pub current_target: Option<String>,
    pub recent_mistakes: Vec<String>,
    pub accuracy_percent: u32,
    pub total_attempts: u32,
}

/// The persona that replaces the assistant's default system prompt.
pub open spec fn tutor_prompt() -> Seq<char> {
    "You are a friendly Korean typing tutor helping non-Korean speakers learn to type Hangul.\n\n<your_knowledge>\n- The 2-Bulsik (두벌식) keyboard layout standard in Korea\n- How jamo (자모) combine to form syllables: initial + vowel + optional final\n- Common typing mistakes English speakers make\n- Korean pronunciation basics (romanization)\n</your_knowledge>\n\n<your_style>\n- Encouraging and patient - learning a new writing system is hard!\n- Use simple explanations with concrete examples\n- Break down complex syllables step-by-step\n- Celebrate progress, never punish mistakes\n- Keep responses concise (1-3 sentences unless explaining in detail)\n- When showing keyboard keys, use the English letter equivalent\n- IMPORTANT: Always respond in the same language the user writes in. If they ask in Spanish, respond in Spanish. If they ask in Japanese, respond in Japanese. Only the Korean characters being taught should remain in Korean.\n</your_style>\n\n<keyboard_layout>\nThe 2-Bulsik layout maps English keys to Korean jamo:\n- Consonants (left hand): ㅂ(q) ㅈ(w) ㄷ(e) ㄱ(r) ㅅ(t) ㅁ(a) ㄴ(s) ㅇ(d) ㄹ(f) ㅎ(g) ㅋ(z) ㅌ(x) ㅊ(c) ㅍ(v)\n- Vowels (right hand): ㅛ(y) ㅕ(u) ㅑ(i) ㅐ(o) ㅔ(p) ㅗ(h) ㅓ(j) ㅏ(k) ㅣ(l) ㅠ(b) ㅜ(n) ㅡ(m)\n- Double consonants: Shift + base consonant (ㄲ=Shift+r, ㄸ=Shift+e, etc.)\n</keyboard_layout>\n\nWhen the user asks about typing a character or word, explain which English keys to press in order."@
}

/// The debug rendering of a list of strings: brackets, quoted and escaped
/// items, separated by a comma and a space.
pub uninterp spec fn debug_list_of(items: Seq<Seq<char>>) -> Seq<char>;

/// Relies on the `Debug` impl of `Vec<String>`: its rendering depends on the
/// items alone, and an empty list renders as `[]`.
#[verifier::external_body]
fn debug_list(items: &Vec<String>) -> (r: String)
    ensures
        r@ == debug_list_of(items.deep_view()),
        items@.len() == 0 ==> r@ == "[]"@,
{
    format!("{:?}", items)
}

/// The target's text, empty where there is none.
pub open spec fn target_text(t: Option<String>) -> Seq<char> {
    match t {
        Some(s) => s@,
        None => Seq::empty(),
    }
}

/// `prompt` followed by the context block, where the recent mistakes are
/// rendered as `mistakes`.
pub open spec fn with_context(prompt: Seq<char>, ctx: LearningContext, mistakes: Seq<char>) -> Seq<char> {
    prompt + "\n\n<current_context>\nLevel: "@ + decimal(ctx.current_level as nat) + "\nTarget: "@
        + target_text(ctx.current_target) + "\nRecent mistakes: "@ + mistakes + "\nAccuracy: "@
        + decimal(ctx.accuracy_percent as nat) + "%\n</current_context>"@
}

/// The prompt that is sent for `prompt` and an optional context.
pub open spec fn full_prompt(prompt: Seq<char>, context: Option<LearningContext>) -> Seq<char> {
    match context {
        Some(ctx) => with_context(prompt, ctx, debug_list_of(ctx.recent_mistakes.deep_view())),
        None => prompt,
    }
}

/// Appends the context block to `prompt`, given the rendering of the recent
/// mistakes.
pub fn compose_prompt(prompt: &str, ctx: &LearningContext, mistakes: &str) -> (r: String)
    ensures
        r@ == with_context(prompt@, *ctx, mistakes@),
{
    let mut s = String::from_str(prompt);
    s.append("\n\n<current_context>\nLevel: ");
    let level = decimal_text(ctx.current_level);
    s.append(level.as_str());
    s.append("\nTarget: ");
    match &ctx.current_target {
        Some(t) => s.append(t.as_str()),
        None => {},
    }
    s.append("\nRecent mistakes: ");
    s.append(mistakes);
    s.append("\nAccuracy: ");
    let acc = decimal_text(ctx.accuracy_percent);
    s.append(acc.as_str());
    s.append("%\n</current_context>");
    s
}

/// The prompt to send: `prompt` as it is, or followed by the context block.
pub fn build_prompt(prompt: &str, context: Option<&LearningContext>) -> (r: String)
    ensures
        r@ == full_prompt(prompt@, match context { Some(c) => Some(*c), None => None }),
{
    match context {
        Some(ctx) => {
            let mistakes = debug_list(&ctx.recent_mistakes);
            compose_prompt(prompt, ctx, mistakes.as_str())
        },
        None => String::from_str(prompt),
    }
}

/// The prompt asking for a hint towards the next key.
pub open spec fn hint_prompt(target: Seq<char>, user_input: Seq<char>, level: u32) -> Seq<char> {
    "The student is trying to type \""@ + target + "\" but typed \""@ + user_input
        + "\". They are on level "@ + decimal(level as nat)
        + ". Give a brief, encouraging hint about which key to press next. Don't give away the full answer."@
}

/// The prompt asking to explain a character or word.
pub open spec fn explain_prompt(text: Seq<char>) -> Seq<char> {
    "Explain the Korean character or word \""@ + text
        + "\": what it is, how to pronounce it (romanization), and exactly which English keys to press to type it on a 2-Bulsik keyboard."@
}

/// The prompt asking to diagnose a typing mistake.
pub open spec fn mistake_prompt(expected: Seq<char>, actual: Seq<char>) -> Seq<char> {
    "The student tried to type \""@ + expected + "\" but typed \""@ + actual
        + "\". Briefly explain what went wrong and how to fix it."@
}

/// What `start` decides.
#[derive(Debug)]
pub enum StartPlan {
    /// A connection is held already: nothing to do, success.
    AlreadyRunning,
    /// The assistant cannot be used: fail with this error.
    Refused(CopilotError),
    /// Build and start a connection, then hand it to `commit_start`.
    Launch,
}

/// The decision of `start` for a service that is or is not running, given
/// the probe results.
pub open spec fn start_plan(running: bool, cli_installed: bool, cli_authenticated: bool) -> StartPlan {
    if running {
        StartPlan::AlreadyRunning
    } else if !cli_installed {
        StartPlan::Refused(CopilotError::CliNotFound)
    } else if !cli_authenticated {
        StartPlan::Refused(CopilotError::NotAuthenticated)
    } else {
        StartPlan::Launch
    }
}

/// Owns at most one live connection of type `C` to the assistant; it is
/// running exactly while it holds one.
pub struct CopilotService<C> {
    client: Option<C>,
    system_prompt: String,
}

impl<C> CopilotService<C> {
    /// The connection held, if any.
    pub closed spec fn held(&self) -> Option<C> {
        self.client
    }

    /// Whether a connection is held.
    pub open spec fn running(&self) -> bool {
        self.held() is Some
    }

    /// The persona text that sessions are created with.
    pub closed spec fn persona(&self) -> Seq<char> {
        self.system_prompt@
    }

    /// A service that holds no connection.
    pub fn new() -> (r: Self)
        ensures
            r.held() is None,
            r.persona() == tutor_prompt(),
    {
        CopilotService { client: None, system_prompt: String::from_str("You are a friendly Korean typing tutor helping non-Korean speakers learn to type Hangul.\n\n<your_knowledge>\n- The 2-Bulsik (두벌식) keyboard layout standard in Korea\n- How jamo (자모) combine to form syllables: initial + vowel + optional final\n- Common typing mistakes English speakers make\n- Korean pronunciation basics (romanization)\n</your_knowledge>\n\n<your_style>\n- Encouraging and patient - learning a new writing system is hard!\n- Use simple explanations with concrete examples\n- Break down complex syllables step-by-step\n- Celebrate progress, never punish mistakes\n- Keep responses concise (1-3 sentences unless explaining in detail)\n- When showing keyboard keys, use the English letter equivalent\n- IMPORTANT: Always respond in the same language the user writes in. If they ask in Spanish, respond in Spanish. If they ask in Japanese, respond in Japanese. Only the Korean characters being taught should remain in Korean.\n</your_style>\n\n<keyboard_layout>\nThe 2-Bulsik layout maps English keys to Korean jamo:\n- Consonants (left hand): ㅂ(q) ㅈ(w) ㄷ(e) ㄱ(r) ㅅ(t) ㅁ(a) ㄴ(s) ㅇ(d) ㄹ(f) ㅎ(g) ㅋ(z) ㅌ(x) ㅊ(c) ㅍ(v)\n- Vowels (right hand): ㅛ(y) ㅕ(u) ㅑ(i) ㅐ(o) ㅔ(p) ㅗ(h) ㅓ(j) ㅏ(k) ㅣ(l) ㅠ(b) ㅜ(n) ㅡ(m)\n- Double consonants: Shift + base consonant (ㄲ=Shift+r, ㄸ=Shift+e, etc.)\n</keyboard_layout>\n\nWhen the user asks about typing a character or word, explain which English keys to press in order.") }
    }

    /// The persona text that sessions are created with.
    pub fn system_prompt(&self) -> (r: &str)
        ensures
            r@ == self.persona(),
    {
        self.system_prompt.as_str()
    }

    /// Whether a connection is held.
    pub fn is_running(&self) -> (r: bool)
        ensures
            r == self.running(),
    {
        self.client.is_some()
    }

    /// The connection held, if any.
    pub fn client(&self) -> (r: Option<&C>)
        ensures
            match r {
                Some(c) => self.held() == Some(*c),
                None => self.held() is None,
            },
    {
        self.client.as_ref()
    }

    /// Decides what starting takes, given a fresh probe.
    pub fn start(&self, availability: &CopilotAvailability) -> (r: StartPlan)
        ensures
            r == start_plan(self.running(), availability.cli_installed, availability.cli_authenticated),
    {
        if self.client.is_some() {
            StartPlan::AlreadyRunning
        } else if !availability.cli_installed {
            StartPlan::Refused(CopilotError::CliNotFound)
        } else if !availability.cli_authenticated {
            StartPlan::Refused(CopilotError::NotAuthenticated)
        } else {
            StartPlan::Launch
        }
    }

    /// Takes the outcome of building and starting a connection: a started
    /// one is held from now on; a failure leaves the service as it was.
    pub fn commit_start(&mut self, launched: Result<C, String>) -> (r: Result<(), CopilotError>)
        requires
            !old(self).running(),
        ensures
            final(self).persona() == old(self).persona(),
            match launched {
                Ok(c) => r is Ok && final(self).held() == Some(c),
                Err(d) => r is Err && r->Err_0 is StartFailed && r->Err_0->StartFailed_0@ == d@
                    && final(self).held() is None,
            },
    {
        match launched {
            Ok(c) => {
                self.client = Some(c);
                Ok(())
            },
            Err(d) => Err(CopilotError::StartFailed(d)),
        }
    }

    /// Gives up the held connection, which the caller then stops; `None`
    /// where none was held, and stopping is then done. The service is not
    /// running afterwards, whatever the stop does.
    pub fn stop(&mut self) -> (r: Option<C>)
        ensures
            r == old(self).held(),
            r is None <==> !old(self).running(),
            final(self).held() is None,
            final(self).persona() == old(self).persona(),
    {
        self.client.take()
    }

    /// The prompt to send for `prompt` and an optional context, or
    /// `NotInitialized` where no connection is held.
    pub fn ask(&self, prompt: &str, context: Option<&LearningContext>) -> (r: Result<String, CopilotError>)
        ensures
            !self.running() <==> r is Err,
            r is Err ==> r->Err_0 is NotInitialized,
            r is Ok ==> r->Ok_0@ == full_prompt(prompt@, match context { Some(c) => Some(*c), None => None }),
    {
        if self.client.is_none() {
            return Err(CopilotError::NotInitialized);
        }
        Ok(build_prompt(prompt, context))
    }

    /// The prompt asking for a hint towards the next key.
    pub fn get_hint(&self, target: &str, user_input: &str, level: u32) -> (r: Result<String, CopilotError>)
        ensures
            !self.running() <==> r is Err,
            r is Err ==> r->Err_0 is NotInitialized,
            r is Ok ==> r->Ok_0@ == hint_prompt(target@, user_input@, level),
    {
        let mut p = String::from_str("The student is trying to type \"");
        p.append(target);
        p.append("\" but typed \"");
        p.append(user_input);
        p.append("\". They are on level ");
        let l = decimal_text(level);
        p.append(l.as_str());
        p.append(
            ". Give a brief, encouraging hint about which key to press next. Don't give away the full answer.",
        );
        self.ask(p.as_str(), None)
    }

    /// The prompt asking to explain a character or word.
    pub fn explain(&self, text: &str) -> (r: Result<String, CopilotError>)
        ensures
            !self.running() <==> r is Err,
            r is Err ==> r->Err_0 is NotInitialized,
            r is Ok ==> r->Ok_0@ == explain_prompt(text@),
    {
        let mut p = String::from_str("Explain the Korean character or word \"");
        p.append(text);
        p.append(
            "\": what it is, how to pronounce it (romanization), and exactly which English keys to press to type it on a 2-Bulsik keyboard.",
        );
        self.ask(p.as_str(), None)
    }

    /// The prompt asking to diagnose a typing mistake.
    pub fn analyze_mistake(&self, expected: &str, actual: &str) -> (r: Result<String, CopilotError>)
        ensures
            !self.running() <==> r is Err,
            r is Err ==> r->Err_0 is NotInitialized,
            r is Ok ==> r->Ok_0@ == mistake_prompt(expected@, actual@),
    {
        let mut p = String::from_str("The student tried to type \"");
        p.append(expected);
        p.append("\" but typed \"");
        p.append(actual);
        p.append("\". Briefly explain what went wrong and how to fix it.");
        self.ask(p.as_str(), None)
    }
}

/// The result of stopping a connection that was given up by `stop`.
pub fn stop_result(stopped: Result<(), String>) -> (r: Result<(), CopilotError>)
    ensures
        match stopped {
            Ok(_) => r is Ok,
            Err(d) => r is Err && r->Err_0 is SendFailed && r->Err_0->SendFailed_0@ == d@,
        },
{
    match stopped {
        Ok(()) => Ok(()),
        Err(d) => Err(CopilotError::SendFailed(d)),
    }
}

/// Starting twice without a stop in between launches at most once: a
/// stopped service with the assistant available launches, and once the
/// launched connection is committed, a further start launches nothing and
/// succeeds, whatever a new probe says.
pub proof fn second_start_launches_nothing<C>(
    before: CopilotService<C>,
    after: CopilotService<C>,
    c: C,
    cli_installed: bool,
    cli_authenticated: bool,
)
    requires
        before.held() is None,
        after.held() == Some(c),
    ensures
        start_plan(before.running(), true, true) == StartPlan::Launch,
        start_plan(after.running(), cli_installed, cli_authenticated) == StartPlan::AlreadyRunning,
{
}

} // verus!
