//! Classifying incoming text, and the per-conversation choice of model.
use vstd::prelude::*;
use crate::job::GenerationRequest;
use crate::prompt::{negative_prompt, positive_prompt, split_prompt};
use crate::text::{chars_of, string_of};

verus! {

pub open spec fn ascii_lower(c: char) -> char {
    if 'A' <= c && c <= 'Z' {
        ((c as u8) + 32) as char
    } else {
        c
    }
}

/// What `str::eq_ignore_ascii_case` decides.
pub open spec fn eq_ignore_case(a: Seq<char>, b: Seq<char>) -> bool {
    a.len() == b.len() && forall|i: int| 0 <= i < a.len() ==> ascii_lower(a[i]) == ascii_lower(b[i])
}

pub open spec fn is_help(t: Seq<char>) -> bool {
    eq_ignore_case(t, "/help"@) || eq_ignore_case(t, "/start"@)
}

pub open spec fn is_market(t: Seq<char>) -> bool {
    eq_ignore_case(t, "/top"@)
}

pub open spec fn is_command(t: Seq<char>) -> bool {
    t.len() > 0 && t[0] == '/'
}

/// The command names that select a model, as typed after the slash.
pub open spec fn catalog() -> Seq<Seq<char>> {
    seq![
        "redshift_diffusion"@,
        "samdoesarts_ultmerge"@,
        "midjourney_v4"@,
        "inkpunk"@,
        "synthwave_diffusion"@,
        "analog_diffusion"@,
        "elldreths_vi"@,
        "dreamlike"@,
        "dream_shaper_8797"@,
        "counterfeit_v20"@,
        "deliberate"@,
    ]
}

/// The model identifier that a command name stands for: its underscores
/// become hyphens.
pub open spec fn model_id_of(name: Seq<char>) -> Seq<char> {
    name.map_values(|c: char| if c == '_' { '-' } else { c })
}

/// The model of the first catalog entry, from index `i` on, that `arg`
/// names.
pub open spec fn lookup_from(arg: Seq<char>, i: int) -> Option<Seq<char>>
    decreases catalog().len() - i,
{
    if i < 0 || i >= catalog().len() {
        None
    } else if eq_ignore_case(arg, catalog()[i]) {
        Some(model_id_of(catalog()[i]))
    } else {
        lookup_from(arg, i + 1)
    }
}

/// The long form `/model <name>` of a selection.
pub open spec fn model_prefix() -> Seq<char> {
    "/model "@
}

/// What names the model in a command: the text after `/model `, or else
/// after the slash.
pub open spec fn selection_arg(t: Seq<char>) -> Seq<char> {
    if t.len() >= model_prefix().len() && eq_ignore_case(t.take(model_prefix().len() as int), model_prefix()) {
        t.skip(model_prefix().len() as int)
    } else {
        t.skip(1)
    }
}

/// The model that `t` selects, if it is a selection command.
pub open spec fn selected_model(t: Seq<char>) -> Option<Seq<char>> {
    if is_command(t) && !is_help(t) && !is_market(t) {
        lookup_from(selection_arg(t), 0)
    } else {
        None
    }
}

/// The model used when a conversation has chosen none.
pub open spec fn default_model() -> Seq<char> {
    "midjourney-v4"@
}

/// How a message is classified.
pub enum Command {
    Help,
    MarketSnapshot,
    SelectModel(String),
    Unrecognized,
    Generate,
}

/// `c` is the classification of `t`.
pub open spec fn classifies(c: Command, t: Seq<char>) -> bool {
    if is_help(t) {
        c is Help
    } else if is_market(t) {
        c is MarketSnapshot
    } else if selected_model(t) is Some {
        c is SelectModel && c->SelectModel_0@ == selected_model(t)->0
    } else if is_command(t) {
        c is Unrecognized
    } else {
        c is Generate
    }
}

fn catalog_names() -> (r: Vec<&'static str>)
    ensures
        r@.len() == catalog().len(),
        forall|i: int| 0 <= i < r@.len() ==> (#[trigger] r@[i])@ == catalog()[i],
{
    let mut v: Vec<&'static str> = Vec::new();
    v.push("redshift_diffusion");
    v.push("samdoesarts_ultmerge");
    v.push("midjourney_v4");
    v.push("inkpunk");
    v.push("synthwave_diffusion");
    v.push("analog_diffusion");
    v.push("elldreths_vi");
    v.push("dreamlike");
    v.push("dream_shaper_8797");
    v.push("counterfeit_v20");
    v.push("deliberate");
    v
}

fn lower_char(c: char) -> (r: char)
    ensures
        r == ascii_lower(c),
{
    if 'A' <= c && c <= 'Z' {
        ((c as u8) + 32) as char
    } else {
        c
    }
}

/// Whether `a[from..]` equals `b` up to ASCII case.
fn eq_ignore_case_from(a: &Vec<char>, from: usize, b: &Vec<char>) -> (r: bool)
    requires
        from <= a@.len(),
    ensures
        r == eq_ignore_case(a@.skip(from as int), b@),
{
    let ghost s = a@.skip(from as int);
    if a.len() - from != b.len() {
        return false;
    }
    let n = a.len();
    let mut i: usize = 0;
    while i < b.len()
        invariant
            n == a@.len(),
            from <= a@.len(),
            s == a@.skip(from as int),
            s.len() == b@.len(),
            a@.len() == from + b@.len(),
            i <= b@.len(),
            forall|j: int| 0 <= j < i ==> ascii_lower(s[j]) == ascii_lower(b@[j]),
        decreases b@.len() - i,
    {
        if lower_char(a[from + i]) != lower_char(b[i]) {
            assert(s[i as int] == a@[from + i]);
            return false;
        }
        assert(s[i as int] == a@[from + i]);
        i = i + 1;
    }
    true
}

/// Whether `t` equals `word` up to ASCII case.
fn is_word(t: &Vec<char>, word: &str) -> (r: bool)
    ensures
        r == eq_ignore_case(t@, word@),
{
    assert(t@.skip(0) =~= t@);
    eq_ignore_case_from(t, 0, &chars_of(word))
}

/// Whether `t` starts with `word` up to ASCII case.
fn has_prefix(t: &Vec<char>, word: &str) -> (r: bool)
    ensures
        r == (t@.len() >= word@.len() && eq_ignore_case(t@.take(word@.len() as int), word@)),
{
    let w = chars_of(word);
    if t.len() < w.len() {
        return false;
    }
    let mut i: usize = 0;
    while i < w.len()
        invariant
            t@.len() >= w@.len(),
            w@ == word@,
            i <= w@.len(),
            forall|j: int| 0 <= j < i ==> ascii_lower(t@[j]) == ascii_lower(w@[j]),
        decreases w@.len() - i,
    {
        if lower_char(t[i]) != lower_char(w[i]) {
            assert(t@.take(w@.len() as int)[i as int] == t@[i as int]);
            return false;
        }
        i = i + 1;
    }
    assert forall|j: int| 0 <= j < w@.len() implies ascii_lower(t@.take(w@.len() as int)[j])
        == ascii_lower(w@[j]) by {
        assert(t@.take(w@.len() as int)[j] == t@[j]);
    }
    true
}

/// The model identifier for a command name.
fn model_id_from(name: &str) -> (r: String)
    ensures
        r@ == model_id_of(name@),
{
    let v = chars_of(name);
    let mut out: Vec<char> = Vec::new();
    let mut i: usize = 0;
    while i < v.len()
        invariant
            v@ == name@,
            i <= v@.len(),
            out@ == model_id_of(name@).take(i as int),
        decreases v@.len() - i,
    {
        let c = v[i];
        if c == '_' {
            out.push('-');
        } else {
            out.push(c);
        }
        i = i + 1;
        proof {
            assert(out@ =~= model_id_of(name@).take(i as int));
        }
    }
    proof {
        assert(out@ =~= model_id_of(name@));
    }
    string_of(&out)
}

/// The model that the catalog entry named by `t[from..]` stands for.
fn lookup(t: &Vec<char>, from: usize) -> (r: Option<String>)
    requires
        from <= t@.len(),
    ensures
        r matches Some(m) ==> lookup_from(t@.skip(from as int), 0) == Some(m@),
        r is None ==> lookup_from(t@.skip(from as int), 0) is None,
{
    let names = catalog_names();
    let ghost arg = t@.skip(from as int);
    let mut i: usize = 0;
    while i < names.len()
        invariant
            names@.len() == catalog().len(),
            forall|k: int| 0 <= k < names@.len() ==> (#[trigger] names@[k])@ == catalog()[k],
            from <= t@.len(),
            arg == t@.skip(from as int),
            i <= names@.len(),
            lookup_from(arg, 0) == lookup_from(arg, i as int),
        decreases names@.len() - i,
    {
        let name = names[i];
        if eq_ignore_case_from(t, from, &chars_of(name)) {
            return Some(model_id_from(name));
        }
        i = i + 1;
    }
    None
}

/// Classifies a message.
pub fn classify(text: &str) -> (r: Command)
    ensures
        classifies(r, text@),
{
    let t = chars_of(text);
    if is_word(&t, "/help") || is_word(&t, "/start") {
        return Command::Help;
    }
    if is_word(&t, "/top") {
        return Command::MarketSnapshot;
    }
    if t.len() == 0 || t[0] != '/' {
        return Command::Generate;
    }
    proof {
        reveal_strlit("/model ");
    }
    let found = if has_prefix(&t, "/model ") {
        lookup(&t, 7)
    } else {
        lookup(&t, 1)
    };
    match found {
        Some(m) => Command::SelectModel(m),
        None => Command::Unrecognized,
    }
}

/// The text of the acknowledgement of a model selection.
pub fn model_set_message(model: &str) -> (r: String)
    ensures
        r@ == "The model has been set to "@ + model@,
{
    let r = String::from_str("The model has been set to ");
    r.concat(model)
}

/// The text sent back for a command that names no known model.
pub fn unrecognized_message() -> (r: &'static str)
    ensures
        r@ == "Sorry, I do not recognize the model name."@,
{
    "Sorry, I do not recognize the model name."
}

pub open spec fn model_view(o: Option<String>) -> Option<Seq<char>> {
    match o {
        Some(m) => Some(m@),
        None => None,
    }
}

/// The model that generation uses under a stored selection.
pub open spec fn effective_model(sel: Option<Seq<char>>) -> Seq<char> {
    match sel {
        Some(m) => m,
        None => default_model(),
    }
}

/// The stored selection after the message `t`.
pub open spec fn next_selection(sel: Option<Seq<char>>, t: Seq<char>) -> Option<Seq<char>> {
    match selected_model(t) {
        Some(m) => Some(m),
        None => sel,
    }
}

/// The stored selection after the messages `ts`, in order.
pub open spec fn run_selection(sel: Option<Seq<char>>, ts: Seq<Seq<char>>) -> Option<Seq<char>>
    decreases ts.len(),
{
    if ts.len() == 0 {
        sel
    } else {
        next_selection(run_selection(sel, ts.drop_last()), ts.last())
    }
}

/// What the bot does with a message.
pub enum Reply {
    /// Send the help text.
    Help,
    /// Fetch and send the market summary.
    MarketSnapshot,
    /// The model was stored; acknowledge it.
    ModelSet(String),
    /// Say that the model is unknown, then send the help text.
    Unrecognized,
    /// Submit this request and poll for its picture.
    Generate(GenerationRequest),
}

/// `r` is the reply to `t` under the stored selection `sel`.
pub open spec fn replies(r: Reply, sel: Option<Seq<char>>, t: Seq<char>) -> bool {
    if is_help(t) {
        r is Help
    } else if is_market(t) {
        r is MarketSnapshot
    } else if selected_model(t) is Some {
        r is ModelSet && r->ModelSet_0@ == selected_model(t)->0
    } else if is_command(t) {
        r is Unrecognized
    } else {
        &&& r is Generate
        &&& r->Generate_0.model_id@ == effective_model(sel)
        &&& r->Generate_0.positive_prompt@ == positive_prompt(t)
        &&& r->Generate_0.negative_prompt@ == negative_prompt(t)
    }
}

proof fn lemma_lookup_nonempty(arg: Seq<char>, i: int)
    ensures
        lookup_from(arg, i) matches Some(m) ==> m.len() > 0,
    decreases catalog().len() - i,
{
    reveal_strlit("redshift_diffusion");
    reveal_strlit("samdoesarts_ultmerge");
    reveal_strlit("midjourney_v4");
    reveal_strlit("inkpunk");
    reveal_strlit("synthwave_diffusion");
    reveal_strlit("analog_diffusion");
    reveal_strlit("elldreths_vi");
    reveal_strlit("dreamlike");
    reveal_strlit("dream_shaper_8797");
    reveal_strlit("counterfeit_v20");
    reveal_strlit("deliberate");
    if 0 <= i < catalog().len() {
        lemma_lookup_nonempty(arg, i + 1);
    }
}

/// A selection command names a model with a non-empty identifier.
pub proof fn lemma_selected_nonempty(t: Seq<char>)
    ensures
        selected_model(t) matches Some(m) ==> m.len() > 0,
{
    lemma_lookup_nonempty(selection_arg(t), 0);
}

/// After a message that selects model `m`, every later message that selects
/// nothing leaves `m` in place, so each generation request built on the way
/// uses `m`.
pub proof fn lemma_selection_persists(
    sel: Option<Seq<char>>,
    t0: Seq<char>,
    ts: Seq<Seq<char>>,
    m: Seq<char>,
)
    requires
        selected_model(t0) == Some(m),
        forall|j: int| 0 <= j < ts.len() ==> selected_model(#[trigger] ts[j]) is None,
    ensures
        forall|j: int|
            0 <= j <= ts.len() ==> effective_model(
                #[trigger] run_selection(next_selection(sel, t0), ts.take(j)),
            ) == m,
    decreases ts.len(),
{
    if ts.len() > 0 {
        let init = ts.drop_last();
        assert forall|j: int| 0 <= j < init.len() implies selected_model(#[trigger] init[j]) is None by {
            assert(init[j] == ts[j]);
        }
        lemma_selection_persists(sel, t0, init, m);
        assert forall|j: int| 0 <= j <= ts.len() implies effective_model(
            #[trigger] run_selection(next_selection(sel, t0), ts.take(j)),
        ) == m by {
            if j < ts.len() {
                assert(ts.take(j) =~= init.take(j));
            } else {
                let s0 = next_selection(sel, t0);
                assert(ts.take(j).drop_last() =~= init.take(j - 1));
                assert(ts.take(j).last() == ts[j - 1]);
                assert(selected_model(ts[j - 1]) is None);
                assert(effective_model(run_selection(s0, init.take(j - 1))) == m);
                assert(run_selection(s0, ts.take(j)) == next_selection(
                    run_selection(s0, init.take(j - 1)),
                    ts[j - 1],
                ));
            }
        }
    } else {
        assert(ts.take(0) =~= ts);
    }
}

/// Selecting the same model twice stores it once: the second message leaves
/// the selection as the first left it, and is acknowledged in the same way.
pub proof fn lemma_selection_idempotent(sel: Option<Seq<char>>, t: Seq<char>, r1: Reply, r2: Reply)
    requires
        selected_model(t) is Some,
        replies(r1, sel, t),
        replies(r2, next_selection(sel, t), t),
    ensures
        next_selection(next_selection(sel, t), t) == next_selection(sel, t),
        next_selection(sel, t) == selected_model(t),
        r1 is ModelSet && r2 is ModelSet,
        r1->ModelSet_0@ == r2->ModelSet_0@,
{
}

/// The model choice of one conversation.
///
/// Each message is handled on a copy read from the store and written back
/// after a selection; two messages of one conversation handled at the same
/// time do not see each other, and the later write wins. A request already
/// built keeps the model it was built with.
pub struct ConversationState {
    pub selected_model: Option<String>,
}

impl ConversationState {
    /// A chosen model is never empty.
    pub open spec fn wf(&self) -> bool {
        self.selected_model matches Some(m) ==> m@.len() > 0
    }

    pub open spec fn selection(&self) -> Option<Seq<char>> {
        model_view(self.selected_model)
    }

    /// A conversation that has chosen no model yet.
    pub fn new() -> (r: ConversationState)
        ensures
            r.wf(),
            r.selection() is None,
    {
        ConversationState { selected_model: None }
    }

    /// The state as read back from the store; an absent or empty value means
    /// that no model was chosen.
    pub fn restore(stored: Option<String>) -> (r: ConversationState)
        ensures
            r.wf(),
            r.selection() == (match stored {
                Some(m) => if m@.len() > 0 { Some(m@) } else { None },
                None => None,
            }),
    {
        match stored {
            Some(m) => {
                let c = chars_of(m.as_str());
                if c.len() > 0 {
                    ConversationState { selected_model: Some(m) }
                } else {
                    ConversationState { selected_model: None }
                }
            },
            None => ConversationState { selected_model: None },
        }
    }

    /// The model that generation uses now.
    pub fn current_model(&self) -> (r: String)
        ensures
            r@ == effective_model(self.selection()),
    {
        match &self.selected_model {
            Some(m) => m.clone(),
            None => String::from_str("midjourney-v4"),
        }
    }

    /// Handles one message: a selection is stored, a prompt becomes a
    /// request for the model chosen before it.
    pub fn handle(&mut self, text: &str) -> (r: Reply)
        requires
            old(self).wf(),
        ensures
            final(self).wf(),
            final(self).selection() == next_selection(old(self).selection(), text@),
            replies(r, old(self).selection(), text@),
    {
        proof {
            lemma_selected_nonempty(text@);
        }
        match classify(text) {
            Command::Help => Reply::Help,
            Command::MarketSnapshot => Reply::MarketSnapshot,
            Command::SelectModel(m) => {
                let ack = m.clone();
                self.selected_model = Some(m);
                Reply::ModelSet(ack)
            },
            Command::Unrecognized => Reply::Unrecognized,
            Command::Generate => {
                let model_id = self.current_model();
                let (positive_prompt, negative_prompt) = split_prompt(text);
                Reply::Generate(GenerationRequest { model_id, positive_prompt, negative_prompt })
            },
        }
    }
}

} // verus!
