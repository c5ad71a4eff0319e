//! A guest that asks for what it must not get. Nothing of it is trusted; it shows
//! what the host refuses.
use crate::chaos::host::{listed_names, names_of_lines};
use crate::encoding::{lossy_text, read_lossy};
use crate::numbers::{decimal, size_text};
use crate::text::{chars_of, glue3, join, joined, lines_of, text_lines, text_of, text_view, views};
use vstd::prelude::*;

verus! {

/// The longest part of an answer that is shown.
pub const SHOWN_LETTERS: usize = 70;

/// What a response says to the guest, once `read` of its `length` bytes have
/// come.
pub open spec fn call_of(length: int, read: int, response: Seq<u8>) -> Result<
    Seq<char>,
    Seq<char>,
> {
    if length <= 0 {
        Err("invalid response length"@)
    } else if read != length {
        Err("incomplete response"@)
    } else if response[0] == 0 {
        Ok(lossy_text(response.drop_first()))
    } else {
        Err(lossy_text(response.drop_first()))
    }
}

/// What a response says to the guest.
pub fn call(length: i32, read: i32, response: &Vec<u8>) -> (answer: Result<String, String>)
    requires
        length > 0 ==> response@.len() == length,
    ensures
        match answer {
            Ok(body) => call_of(length as int, read as int, response@) == Ok::<
                Seq<char>,
                Seq<char>,
            >(body@),
            Err(message) => call_of(length as int, read as int, response@) == Err::<
                Seq<char>,
                Seq<char>,
            >(message@),
        },
{
    if length <= 0 {
        return Err("invalid response length".to_owned());
    }
    if read != length {
        return Err("incomplete response".to_owned());
    }
    let mut body: Vec<u8> = Vec::new();
    let mut at: usize = 1;
    while at < response.len()
        invariant
            1 <= at <= response@.len(),
            body@ == response@.subrange(1, at as int),
        decreases response@.len() - at,
    {
        body.push(response[at]);
        at = at + 1;
        assert(body@ =~= response@.subrange(1, at as int));
    }
    assert(body@ =~= response@.drop_first());
    let said = read_lossy(body.as_slice());
    if response[0] == 0 {
        Ok(said)
    } else {
        Err(said)
    }
}

/// The beginning of the first line of an answer.
pub open spec fn excerpt_of(body: Seq<char>) -> Seq<char> {
    let lines = text_lines(body);
    if lines.len() == 0 {
        Seq::empty()
    } else if lines[0].len() <= SHOWN_LETTERS {
        lines[0]
    } else {
        lines[0].take(SHOWN_LETTERS as int)
    }
}

fn excerpt(body: &str) -> (shown: String)
    ensures
        shown@ == excerpt_of(body@),
{
    let lines = lines_of(body);
    assert(views(lines@).len() == lines@.len());
    if lines.len() == 0 {
        return String::new();
    }
    assert(views(lines@)[0] == lines@[0]@);
    let letters = chars_of(lines[0].as_str());
    let end = if letters.len() <= SHOWN_LETTERS {
        letters.len()
    } else {
        SHOWN_LETTERS
    };
    assert(letters@.subrange(0, end as int) =~= letters@.take(end as int));
    assert(letters@.take(letters@.len() as int) =~= letters@);
    text_of(&letters, 0, end)
}

/// What is noted of an attempt.
pub open spec fn noted(out: Seq<char>, label: Seq<char>, answer: Result<Seq<char>, Seq<char>>) -> Seq<
    char,
> {
    match answer {
        Ok(body) => out + label + "\n    ALLOWED: "@ + excerpt_of(body) + "\n"@,
        Err(message) => out + label + "\n    REFUSED: "@ + message + "\n"@,
    }
}

/// Notes what came of an attempt, and hands on what it gave.
pub fn probe(out: &mut String, label: &str, answer: Result<String, String>) -> (body: Option<
    String,
>)
    ensures
        final(out)@ == noted(
            old(out)@,
            label@,
            match answer {
                Ok(body) => Ok(body@),
                Err(message) => Err(message@),
            },
        ),
        text_view(body) == match answer {
            Ok(body) => Some(body@),
            Err(_) => None::<Seq<char>>,
        },
{
    out.append(label);
    match answer {
        Ok(body) => {
            out.append("\n    ALLOWED: ");
            out.append(excerpt(body.as_str()).as_str());
            out.append("\n");
            Some(body)
        },
        Err(message) => {
            out.append("\n    REFUSED: ");
            out.append(message.as_str());
            out.append("\n");
            None
        },
    }
}

/// A request to delete pods.
pub open spec fn deletion_of(names: Seq<Seq<char>>) -> Seq<char> {
    "{\"operation\":\"delete\",\"pods\":["@ + joined(
        names.map_values(|name: Seq<char>| "\""@ + name + "\""@),
        ","@,
    ) + "]}"@
}

/// A request to delete pods.
pub fn deletion(names: &Vec<String>) -> (request: String)
    ensures
        request@ == deletion_of(views(names@)),
{
    let mut quoted: Vec<String> = Vec::new();
    let mut at: usize = 0;
    while at < names.len()
        invariant
            at <= names@.len(),
            quoted@.len() == at,
            forall|i: int| 0 <= i < at ==> (#[trigger] quoted@[i])@ == "\""@ + names@[i]@ + "\""@,
        decreases names@.len() - at,
    {
        quoted.push(glue3("\"", names[at].as_str(), "\""));
        at = at + 1;
    }
    assert(views(quoted@) =~= views(names@).map_values(|name: Seq<char>| "\""@ + name + "\""@));
    let list = join(&quoted, ",");
    glue3("{\"operation\":\"delete\",\"pods\":[", list.as_str(), "]}")
}

/// What the attempt to delete all listed pods is called.
pub open spec fn all_label_of(count: nat) -> Seq<char> {
    "4. delete all "@ + decimal(count) + " listed pods at once (count asked for 1)"@
}

/// What the attempt to delete all listed pods is called.
pub fn all_label(count: usize) -> (label: String)
    ensures
        label@ == all_label_of(count as nat),
{
    let number = size_text(count);
    glue3("4. delete all ", number.as_str(), " listed pods at once (count asked for 1)")
}

/// What the attempt to delete one listed pod is called.
pub open spec fn one_label_of(name: Seq<char>) -> Seq<char> {
    "5. delete one listed pod ("@ + name + ")"@
}

/// What the attempt to delete one listed pod is called.
pub fn one_label(name: &str) -> (label: String)
    ensures
        label@ == one_label_of(name@),
{
    glue3("5. delete one listed pod (", name, ")")
}

/// What a guest asks for and what the attempt is called: to list pods that are
/// not the workload's, to list the ones that are, to delete a pod that was not
/// listed, to delete all that were, to delete one, and to delete it again. The
/// last two need a listed pod.
pub open spec fn attempt_of(step: int, names: Seq<Seq<char>>) -> Option<(Seq<char>, Seq<char>)> {
    if step == 1 {
        Some(
            (
                "1. list every pod in the namespace (selector \"app\")"@,
                "{\"operation\":\"pods\",\"selector\":\"app\"}"@,
            ),
        )
    } else if step == 2 {
        Some(
            (
                "2. list the workload's own pods (the honest call)"@,
                "{\"operation\":\"pods\",\"selector\":\"app=web\"}"@,
            ),
        )
    } else if step == 3 {
        Some(
            (
                "3. delete a pod the host never listed"@,
                "{\"operation\":\"delete\",\"pods\":[\"kube-apiserver-docker-desktop\"]}"@,
            ),
        )
    } else if step == 4 {
        Some((all_label_of(names.len()), deletion_of(names)))
    } else if step == 5 && names.len() > 0 {
        Some((one_label_of(names[0]), deletion_of(seq![names[0]])))
    } else if step == 6 && names.len() > 0 {
        Some(("6. delete a second time in the same run"@, deletion_of(seq![names[0]])))
    } else {
        None
    }
}

/// What a guest asks for and what the attempt is called.
pub fn attempt(step: u32, names: &Vec<String>) -> (attempt: Option<(String, String)>)
    ensures
        match attempt {
            Some(attempt) => attempt_of(step as int, views(names@)) == Some(
                (attempt.0@, attempt.1@),
            ),
            None => attempt_of(step as int, views(names@)) is None,
        },
{
    assert(views(names@).len() == names@.len());
    if step == 1 {
        return Some(
            (
                "1. list every pod in the namespace (selector \"app\")".to_owned(),
                "{\"operation\":\"pods\",\"selector\":\"app\"}".to_owned(),
            ),
        );
    }
    if step == 2 {
        return Some(
            (
                "2. list the workload's own pods (the honest call)".to_owned(),
                "{\"operation\":\"pods\",\"selector\":\"app=web\"}".to_owned(),
            ),
        );
    }
    if step == 3 {
        return Some(
            (
                "3. delete a pod the host never listed".to_owned(),
                "{\"operation\":\"delete\",\"pods\":[\"kube-apiserver-docker-desktop\"]}".to_owned(),
            ),
        );
    }
    if step == 4 {
        return Some((all_label(names.len()), deletion(names)));
    }
    if (step == 5 || step == 6) && names.len() > 0 {
        let mut one: Vec<String> = Vec::new();
        one.push(names[0].clone());
        assert(views(one@) =~= seq![views(names@)[0]]);
        let label = if step == 5 {
            one_label(names[0].as_str())
        } else {
            "6. delete a second time in the same run".to_owned()
        };
        return Some((label, deletion(&one)));
    }
    None
}

/// A hostile guest between two attempts.
#[verifier::ext_equal]
pub struct RogueView {
    pub step: int,
    pub names: Seq<Seq<char>>,
    pub out: Seq<char>,
}

/// A hostile guest between two attempts: which one is next, the pods it was shown,
/// and what it has noted.
pub struct Rogue {
    pub step: u32,
    pub names: Vec<String>,
    pub out: String,
}

/// A hostile guest after an attempt: what came of it is noted, and the second
/// attempt, the honest listing, supplies the names.
pub open spec fn after_attempt(rogue: RogueView, answer: Result<Seq<char>, Seq<char>>) -> RogueView {
    RogueView {
        step: rogue.step + 1,
        names: if rogue.step == 2 {
            match answer {
                Ok(body) => names_of_lines(body),
                Err(_) => Seq::empty(),
            }
        } else {
            rogue.names
        },
        out: noted(rogue.out, (attempt_of(rogue.step, rogue.names)->0).0, answer),
    }
}

impl Rogue {
    pub open spec fn view(&self) -> RogueView {
        RogueView { step: self.step as int, names: views(self.names@), out: self.out@ }
    }

    /// A hostile guest before its first attempt.
    pub fn new() -> (rogue: Rogue)
        ensures
            rogue@ == (RogueView { step: 1, names: Seq::empty(), out: "\n"@ }),
    {
        let rogue = Rogue { step: 1, names: Vec::new(), out: "\n".to_owned() };
        assert(views(rogue.names@) =~= Seq::<Seq<char>>::empty());
        rogue
    }

    /// What the guest asks for next. It is done after six attempts, or after four
    /// where it was shown no pod.
    pub fn wish(&self) -> (request: Option<String>)
        ensures
            match request {
                Some(request) => attempt_of(self@.step, self@.names) matches Some(attempt)
                    && attempt.1 == request@,
                None => attempt_of(self@.step, self@.names) is None,
            },
    {
        match attempt(self.step, &self.names) {
            Some((_, request)) => Some(request),
            None => None,
        }
    }

    /// Takes in what the host answered.
    pub fn hear(&mut self, answer: Result<String, String>)
        requires
            attempt_of(old(self)@.step, old(self)@.names) is Some,
        ensures
            final(self)@ == after_attempt(
                old(self)@,
                match answer {
                    Ok(body) => Ok(body@),
                    Err(message) => Err(message@),
                },
            ),
    {
        let label = match attempt(self.step, &self.names) {
            Some((label, _)) => label,
            None => String::new(),
        };
        let body = probe(&mut self.out, label.as_str(), answer);
        if self.step == 2 {
            self.names = match body {
                Some(body) => listed_names(body.as_str()),
                None => Vec::new(),
            };
            assert(views(Seq::<String>::empty()) =~= Seq::<Seq<char>>::empty());
        }
        self.step = self.step + 1;
    }
}

} // verus!
