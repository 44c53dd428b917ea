//! Prompts that a package poses, the answers given to them, and the scanner
//! that finds and substitutes `?key?` placeholders in template text.
use vstd::prelude::*;
use crate::error::{Error, Fault};
use crate::input::{input_text, Input, InputType, InputTypeView, InputView};
use crate::text::push_char;

verus! {

/// Opens and closes a placeholder; two in a row stand for one literal delimiter.
pub const DELIMITER: char = '?';

/// A question that a package author poses to whoever installs the package.
#[derive(Debug, PartialEq, Eq)]
pub struct Prompt {
    pub template: String,
    pub question: String,
    pub input_type: InputType,
}

pub ghost struct PromptView {
    pub template: Seq<char>,
    pub question: Seq<char>,
    pub input_type: InputTypeView,
}

impl View for Prompt {
    type V = PromptView;

    open spec fn view(&self) -> PromptView {
        PromptView {
            template: self.template@,
            question: self.question@,
            input_type: self.input_type@,
        }
    }
}

impl Clone for Prompt {
    fn clone(&self) -> (r: Self)
        ensures
            r@ == self@,
    {
        Prompt {
            template: self.template.clone(),
            question: self.question.clone(),
            input_type: self.input_type.clone(),
        }
    }
}

pub open spec fn prompt_views(ps: Seq<Prompt>) -> Seq<PromptView> {
    ps.map_values(|p: Prompt| p@)
}

fn clone_prompts(v: &Vec<Prompt>) -> (r: Vec<Prompt>)
    ensures
        prompt_views(r@) == prompt_views(v@),
{
    let mut out: Vec<Prompt> = Vec::new();
    let mut i: usize = 0;
    while i < v.len()
        invariant
            i <= v@.len(),
            prompt_views(out@) =~= prompt_views(v@.take(i as int)),
        decreases v.len() - i,
    {
        let ghost before = out@;
        let c = v[i].clone();
        out.push(c);
        assert(v@.take(i + 1) =~= v@.take(i as int).push(v@[i as int]));
        assert(out@ =~= before.push(c));
        assert(prompt_views(out@) =~= prompt_views(before).push(c@));
        i = i + 1;
    }
    assert(v@.take(v@.len() as int) =~= v@);
    out
}

/// The prompts of a package, in the order the author wrote them.
#[derive(Debug, PartialEq, Eq)]
pub struct PromptCollection(pub Vec<Prompt>);

impl View for PromptCollection {
    type V = Seq<PromptView>;

    open spec fn view(&self) -> Seq<PromptView> {
        prompt_views(self.0@)
    }
}

impl Clone for PromptCollection {
    fn clone(&self) -> (r: Self)
        ensures
            r@ == self@,
    {
        PromptCollection(clone_prompts(&self.0))
    }
}

impl PromptCollection {
    /// An empty collection.
    pub fn new() -> (r: Self)
        ensures
            r@ == Seq::<PromptView>::empty(),
    {
        PromptCollection(Vec::new())
    }

    pub fn to_vec(&self) -> (r: Vec<Prompt>)
        ensures
            prompt_views(r@) == self@,
    {
        clone_prompts(&self.0)
    }
}

/// The answer given to one prompt, keyed by the prompt's template key.
#[derive(Debug, PartialEq, Eq)]
pub struct PromptResponse {
    pub template: String,
    pub input: Input,
}

impl PromptResponse {
    /// The answer as template text.
    pub fn to_string(&self) -> (r: String)
        ensures
            r@ == input_text(self.input@),
    {
        self.input.to_string()
    }
}

/// The answers given for one package.
#[derive(Debug, PartialEq, Eq)]
pub struct PromptResponses(pub Vec<PromptResponse>);

impl Default for PromptResponses {
    fn default() -> (r: Self)
        ensures
            r.0@.len() == 0,
    {
        PromptResponses::new()
    }
}

impl Default for PromptCollection {
    fn default() -> (r: Self)
        ensures
            r@ == Seq::<PromptView>::empty(),
    {
        PromptCollection::new()
    }
}

impl PromptResponses {
    /// No answers.
    pub fn new() -> (r: Self)
        ensures
            r.0@.len() == 0,
    {
        PromptResponses(Vec::new())
    }
}

/// The text of the first response whose key is `key`.
pub open spec fn response_text(rs: Seq<PromptResponse>, key: Seq<char>) -> Option<Seq<char>>
    decreases rs.len(),
{
    if rs.len() == 0 {
        None
    } else if rs[0].template@ == key {
        Some(input_text(rs[0].input@))
    } else {
        response_text(rs.drop_first(), key)
    }
}

/// Where substitution stands after a prefix of the text: inside a placeholder
/// or not, the placeholder's key so far, and the text produced.
pub ghost struct Substitution {
    pub inside: bool,
    pub key: Seq<char>,
    pub out: Seq<char>,
}

/// Substitution after one more character, or the key that no response answers.
pub open spec fn substitute_step(st: Substitution, ch: char, rs: Seq<PromptResponse>) -> Result<
    Substitution,
    Seq<char>,
> {
    if st.inside && ch == DELIMITER {
        if st.key.len() == 0 {
            Ok(Substitution { inside: false, key: st.key, out: st.out.push(DELIMITER) })
        } else {
            match response_text(rs, st.key) {
                Some(t) => Ok(Substitution { inside: false, key: Seq::empty(), out: st.out + t }),
                None => Err(st.key),
            }
        }
    } else if ch == DELIMITER {
        Ok(Substitution { inside: true, key: st.key, out: st.out })
    } else if st.inside {
        Ok(Substitution { inside: true, key: st.key.push(ch), out: st.out })
    } else {
        Ok(Substitution { inside: false, key: st.key, out: st.out.push(ch) })
    }
}

pub open spec fn substitute_scan(s: Seq<char>, rs: Seq<PromptResponse>) -> Result<
    Substitution,
    Seq<char>,
>
    decreases s.len(),
{
    if s.len() == 0 {
        Ok(Substitution { inside: false, key: Seq::empty(), out: Seq::empty() })
    } else {
        match substitute_scan(s.drop_last(), rs) {
            Err(k) => Err(k),
            Ok(st) => substitute_step(st, s.last(), rs),
        }
    }
}

/// The text with every placeholder replaced by its response, or the first key
/// that no response answers. A placeholder still open at the end is kept as
/// written.
pub open spec fn template_text(s: Seq<char>, rs: Seq<PromptResponse>) -> Result<
    Seq<char>,
    Seq<char>,
> {
    match substitute_scan(s, rs) {
        Err(k) => Err(k),
        Ok(st) => Ok(
            if st.inside {
                st.out.push(DELIMITER) + st.key
            } else {
                st.out
            },
        ),
    }
}

/// Where prompt gathering stands after a prefix of the text.
pub ghost struct Gathering {
    pub inside: bool,
    pub key: Seq<char>,
    pub found: Seq<PromptView>,
}

/// The prompts of `ps` whose key is `key`, in order.
pub open spec fn prompts_with_key(ps: Seq<Prompt>, key: Seq<char>) -> Seq<PromptView>
    decreases ps.len(),
{
    if ps.len() == 0 {
        Seq::empty()
    } else if ps.last().template@ == key {
        prompts_with_key(ps.drop_last(), key).push(ps.last()@)
    } else {
        prompts_with_key(ps.drop_last(), key)
    }
}

pub open spec fn gather_step(g: Gathering, ch: char, ps: Seq<Prompt>) -> Gathering {
    if g.inside && ch == DELIMITER {
        if g.key.len() == 0 {
            Gathering { inside: false, key: g.key, found: g.found }
        } else {
            Gathering {
                inside: false,
                key: Seq::empty(),
                found: g.found + prompts_with_key(ps, g.key),
            }
        }
    } else if ch == DELIMITER {
        Gathering { inside: true, key: g.key, found: g.found }
    } else if g.inside {
        Gathering { inside: true, key: g.key.push(ch), found: g.found }
    } else {
        g
    }
}

pub open spec fn gather_scan(s: Seq<char>, ps: Seq<Prompt>) -> Gathering
    decreases s.len(),
{
    if s.len() == 0 {
        Gathering { inside: false, key: Seq::empty(), found: Seq::empty() }
    } else {
        gather_step(gather_scan(s.drop_last(), ps), s.last(), ps)
    }
}

/// The prompts that the closed placeholders of `s` refer to, in the order the
/// placeholders appear, repeats included.
pub open spec fn referenced_prompts(s: Seq<char>, ps: Seq<Prompt>) -> Seq<PromptView> {
    gather_scan(s, ps).found
}

fn find_response(responses: &[PromptResponse], key: &String) -> (r: Option<String>)
    ensures
        r matches Some(t) ==> response_text(responses@, key@) == Some(t@),
        r is None ==> response_text(responses@, key@) is None,
{
    let mut j: usize = 0;
    assert(responses@.subrange(0, responses@.len() as int) =~= responses@);
    while j < responses.len()
        invariant
            j <= responses@.len(),
            response_text(responses@, key@) == response_text(
                responses@.subrange(j as int, responses@.len() as int),
                key@,
            ),
        decreases responses.len() - j,
    {
        let ghost rest = responses@.subrange(j as int, responses@.len() as int);
        assert(rest.drop_first() =~= responses@.subrange(j + 1, responses@.len() as int));
        assert(rest[0] == responses@[j as int]);
        if responses[j].template == *key {
            return Some(responses[j].to_string());
        }
        j = j + 1;
    }
    None
}

fn matching_prompts(ps: &Vec<Prompt>, key: &String, found: &mut Vec<Prompt>)
    ensures
        prompt_views(final(found)@) == prompt_views(old(found)@) + prompts_with_key(ps@, key@),
{
    let ghost start = prompt_views(found@);
    let mut i: usize = 0;
    while i < ps.len()
        invariant
            i <= ps@.len(),
            prompt_views(found@) =~= start + prompts_with_key(ps@.take(i as int), key@),
        decreases ps.len() - i,
    {
        assert(ps@.take(i + 1).drop_last() =~= ps@.take(i as int));
        assert(ps@.take(i + 1).last() == ps@[i as int]);
        if ps[i].template == *key {
            let ghost before = found@;
            let c = ps[i].clone();
            found.push(c);
            assert(found@ =~= before.push(c));
            assert(prompt_views(found@) =~= prompt_views(before).push(c@));
        }
        i = i + 1;
    }
    assert(ps@.take(ps@.len() as int) =~= ps@);
}

/// Scans template text for placeholders over a collection of prompts.
#[derive(Debug, PartialEq, Eq)]
pub struct PromptParser(pub PromptCollection);

impl PromptParser {
    pub fn collection(&self) -> (r: PromptCollection)
        ensures
            r@ == self.0@,
    {
        self.0.clone()
    }

    /// The prompts that the placeholders of `s` refer to, in order of
    /// appearance; `??` refers to none.
    pub fn prompts(&self, s: String) -> (r: Result<Vec<Prompt>, Error>)
        ensures
            r matches Ok(v) && prompt_views(v@) == referenced_prompts(s@, (self.0).0@),
    {
        let ghost ps = (self.0).0@;
        let mut found: Vec<Prompt> = Vec::new();
        let mut inside = false;
        let mut key = String::new();
        let len = s.as_str().unicode_len();
        let mut i: usize = 0;
        assert(s@.take(0) =~= Seq::<char>::empty());
        assert(prompt_views(found@) =~= Seq::<PromptView>::empty());
        while i < len
            invariant
                i <= len,
                len == s@.len(),
                ps == (self.0).0@,
                gather_scan(s@.take(i as int), ps) == (Gathering {
                    inside,
                    key: key@,
                    found: prompt_views(found@),
                }),
            decreases len - i,
        {
            let ch = s.as_str().get_char(i);
            assert(s@.take(i + 1).drop_last() =~= s@.take(i as int));
            assert(s@.take(i + 1).last() == ch);
            if inside && ch == DELIMITER {
                inside = false;
                if key.as_str().unicode_len() != 0 {
                    matching_prompts(&(self.0).0, &key, &mut found);
                    key = String::new();
                }
            } else if ch == DELIMITER {
                inside = true;
            } else if inside {
                push_char(&mut key, ch);
            }
            i = i + 1;
        }
        assert(s@.take(len as int) =~= s@);
        Ok(found)
    }

    /// `s` with each placeholder replaced by the text of the first response
    /// with its key; `??` gives one `?`, and a placeholder left open at the end
    /// is kept as written. Fails on the first key that no response answers.
    pub fn template(&self, s: String, responses: &[PromptResponse]) -> (r: Result<String, Error>)
        ensures
            match template_text(s@, responses@) {
                Ok(t) => r matches Ok(o) && o@ == t,
                Err(k) => r matches Err(e) && e@ == Fault::UnresolvedPlaceholder(k),
            },
    {
        let mut out = String::new();
        let mut inside = false;
        let mut key = String::new();
        let len = s.as_str().unicode_len();
        let mut i: usize = 0;
        assert(s@.take(0) =~= Seq::<char>::empty());
        while i < len
            invariant
                i <= len,
                len == s@.len(),
                substitute_scan(s@.take(i as int), responses@) == Ok::<Substitution, Seq<char>>(
                    Substitution { inside, key: key@, out: out@ },
                ),
            decreases len - i,
        {
            let ch = s.as_str().get_char(i);
            assert(s@.take(i + 1).drop_last() =~= s@.take(i as int));
            assert(s@.take(i + 1).last() == ch);
            if inside && ch == DELIMITER {
                inside = false;
                if key.as_str().unicode_len() == 0 {
                    push_char(&mut out, DELIMITER);
                } else {
                    match find_response(responses, &key) {
                        Some(t) => {
                            out.append(t.as_str());
                            key = String::new();
                        },
                        None => {
                            proof {
                                lemma_substitute_fails_on_prefix(s@, i as int + 1, responses@);
                            }
                            return Err(Error::UnresolvedPlaceholder(key));
                        },
                    }
                }
            } else if ch == DELIMITER {
                inside = true;
            } else if inside {
                push_char(&mut key, ch);
            } else {
                push_char(&mut out, ch);
            }
            i = i + 1;
        }
        assert(s@.take(len as int) =~= s@);
        if inside {
            push_char(&mut out, DELIMITER);
            out.append(key.as_str());
        }
        Ok(out)
    }
}

/// Once a prefix fails to substitute, the whole text fails with the same key.
proof fn lemma_substitute_fails_on_prefix(s: Seq<char>, n: int, rs: Seq<PromptResponse>)
    requires
        0 <= n <= s.len(),
        substitute_scan(s.take(n), rs) is Err,
    ensures
        substitute_scan(s, rs) == substitute_scan(s.take(n), rs),
    decreases s.len() - n,
{
    if n < s.len() {
        assert(s.take(n + 1).drop_last() =~= s.take(n));
        lemma_substitute_fails_on_prefix(s, n + 1, rs);
    } else {
        assert(s.take(n) =~= s);
    }
}

/// Outside a placeholder no key is pending.
proof fn lemma_gather_outside_has_no_key(s: Seq<char>, ps: Seq<Prompt>)
    ensures
        !gather_scan(s, ps).inside ==> gather_scan(s, ps).key.len() == 0,
    decreases s.len(),
{
    if s.len() > 0 {
        lemma_gather_outside_has_no_key(s.drop_last(), ps);
    }
}

proof fn lemma_gather_append(a: Seq<char>, b: Seq<char>, ps: Seq<Prompt>)
    requires
        !gather_scan(a, ps).inside,
        gather_scan(a, ps).key.len() == 0,
    ensures
        gather_scan(a + b, ps) == (Gathering {
            inside: gather_scan(b, ps).inside,
            key: gather_scan(b, ps).key,
            found: gather_scan(a, ps).found + gather_scan(b, ps).found,
        }),
    decreases b.len(),
{
    if b.len() == 0 {
        assert(a + b =~= a);
        assert(gather_scan(a, ps).found + gather_scan(b, ps).found =~= gather_scan(a, ps).found);
        assert(gather_scan(a, ps).key =~= Seq::<char>::empty());
    } else {
        assert((a + b).drop_last() =~= a + b.drop_last());
        assert((a + b).last() == b.last());
        lemma_gather_append(a, b.drop_last(), ps);
        let g = gather_scan(b.drop_last(), ps);
        let found_a = gather_scan(a, ps).found;
        if g.inside && b.last() == DELIMITER && g.key.len() != 0 {
            assert(found_a + g.found + prompts_with_key(ps, g.key) =~= found_a + (g.found
                + prompts_with_key(ps, g.key)));
        }
    }
}

/// Placeholders are gathered left to right, each as often as it occurs: the
/// prompts of two texts written one after the other are those of the first
/// followed by those of the second, when the first leaves no placeholder open.
pub proof fn lemma_referenced_prompts_concat(a: Seq<char>, b: Seq<char>, ps: Seq<Prompt>)
    requires
        !gather_scan(a, ps).inside,
    ensures
        referenced_prompts(a + b, ps) == referenced_prompts(a, ps) + referenced_prompts(b, ps),
{
    lemma_gather_outside_has_no_key(a, ps);
    lemma_gather_append(a, b, ps);
}

} // verus!
