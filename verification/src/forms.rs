//! The client's forms: which messages each field shows, and the errors a
//! form displays as fields are left.
use vstd::prelude::*;
use vstd::string::{StrSliceExecFns, StringExecFns};
use crate::keyed::{has_key, lemma_dom, lemma_push, lemma_push_unique, lemma_remove, lemma_update, lemma_value, pairs_to_map, unique_keys};
use crate::validation::{valid_email, validate_email};
use crate::client::{role_code, spec_role_code};
use crate::dto::InvitationPayload;

verus! {

pub open spec fn texts(v: Seq<String>) -> Seq<Seq<char>> {
    v.map_values(|s: String| s@)
}

/// `[message]` when `value` is shorter than `min` characters, else nothing.
pub open spec fn length_messages(value: Seq<char>, min: nat, message: Seq<char>) -> Seq<Seq<char>> {
    if value.len() < min {
        seq![message]
    } else {
        Seq::empty()
    }
}

/// The messages of an e-mail field: required, then well formed.
pub open spec fn email_messages(value: Seq<char>) -> Seq<Seq<char>> {
    length_messages(value, 1, "Email is required"@) + if valid_email(value) {
        Seq::<Seq<char>>::empty()
    } else {
        seq!["Email is invalid"@]
    }
}

fn same(a: &str, b: &str) -> (r: bool)
    ensures
        r == (a@ == b@),
{
    a.to_owned() == b.to_owned()
}

fn length_check(value: &str, min: usize, message: &str) -> (r: Vec<String>)
    ensures
        texts(r@) == length_messages(value@, min as nat, message@),
{
    let mut r: Vec<String> = Vec::new();
    if value.unicode_len() < min {
        r.push(message.to_owned());
        assert(texts(r@) =~= seq![message@]);
    } else {
        assert(texts(r@) =~= Seq::<Seq<char>>::empty());
    }
    r
}

fn email_check(value: &str) -> (r: Vec<String>)
    ensures
        texts(r@) == email_messages(value@),
{
    let mut r = length_check(value, 1, "Email is required");
    let ghost first = r@;
    if !validate_email(value) {
        r.push(String::from_str("Email is invalid"));
        assert(texts(r@) =~= texts(first) + seq!["Email is invalid"@]);
    } else {
        assert(texts(r@) =~= texts(first) + Seq::<Seq<char>>::empty());
    }
    r
}

/// The login form.
#[derive(Debug, Clone, PartialEq, Eq)]
pub struct LoginForm {
    pub email: String,
    pub password: String,
}

pub open spec fn login_form_messages(f: LoginForm, field: Seq<char>) -> Seq<Seq<char>> {
    if field == "email"@ {
        email_messages(f.email@)
    } else if field == "password"@ {
        length_messages(f.password@, 6, "Password must be at least 6 characters"@)
    } else {
        Seq::empty()
    }
}

impl LoginForm {
    /// The messages `field` shows.
    pub fn messages(&self, field: &str) -> (r: Vec<String>)
        ensures
            texts(r@) == login_form_messages(*self, field@),
    {
        if same(field, "email") {
            email_check(self.email.as_str())
        } else if same(field, "password") {
            length_check(self.password.as_str(), 6, "Password must be at least 6 characters")
        } else {
            let r: Vec<String> = Vec::new();
            assert(texts(r@) =~= Seq::<Seq<char>>::empty());
            r
        }
    }

    /// Whether the form may be sent: no field shows a message.
    pub fn is_valid(&self) -> (b: bool)
        ensures
            b == (login_form_messages(*self, "email"@).len() == 0 && login_form_messages(*self, "password"@).len() == 0),
    {
        self.messages("email").len() == 0 && self.messages("password").len() == 0
    }
}

/// The registration form.
#[derive(Debug, Clone, PartialEq, Eq)]
pub struct RegisterForm {
    pub name: String,
    pub surname: String,
    pub email: String,
    pub password: String,
    pub confirm_password: String,
}

pub open spec fn register_form_messages(f: RegisterForm, field: Seq<char>) -> Seq<Seq<char>> {
    if field == "name"@ {
        length_messages(f.name@, 3, "Name is too short (min 3)"@)
    } else if field == "surname"@ {
        length_messages(f.surname@, 3, "Surname is too short (min 3)"@)
    } else if field == "email"@ {
        email_messages(f.email@)
    } else if field == "password"@ {
        length_messages(f.password@, 6, "Password must be at least 6 characters"@)
    } else if field == "confirm_password"@ {
        length_messages(f.confirm_password@, 6, "Password must be at least 6 characters"@)
    } else {
        Seq::empty()
    }
}

impl RegisterForm {
    /// The messages `field` shows.
    pub fn messages(&self, field: &str) -> (r: Vec<String>)
        ensures
            texts(r@) == register_form_messages(*self, field@),
    {
        if same(field, "name") {
            length_check(self.name.as_str(), 3, "Name is too short (min 3)")
        } else if same(field, "surname") {
            length_check(self.surname.as_str(), 3, "Surname is too short (min 3)")
        } else if same(field, "email") {
            email_check(self.email.as_str())
        } else if same(field, "password") {
            length_check(self.password.as_str(), 6, "Password must be at least 6 characters")
        } else if same(field, "confirm_password") {
            length_check(self.confirm_password.as_str(), 6, "Password must be at least 6 characters")
        } else {
            let r: Vec<String> = Vec::new();
            assert(texts(r@) =~= Seq::<Seq<char>>::empty());
            r
        }
    }

    /// Whether no field shows a message.
    pub fn is_valid(&self) -> (b: bool)
        ensures
            b == (register_form_messages(*self, "name"@).len() == 0
                && register_form_messages(*self, "surname"@).len() == 0
                && register_form_messages(*self, "email"@).len() == 0
                && register_form_messages(*self, "password"@).len() == 0
                && register_form_messages(*self, "confirm_password"@).len() == 0),
    {
        self.messages("name").len() == 0 && self.messages("surname").len() == 0
            && self.messages("email").len() == 0 && self.messages("password").len() == 0
            && self.messages("confirm_password").len() == 0
    }

    /// The message shown when the form is sent with passwords that differ,
    /// or `None` when they agree.
    pub fn password_mismatch(&self) -> (r: Option<String>)
        ensures
            r is Some <==> self.password@ != self.confirm_password@,
            r matches Some(m) ==> m@ == "Passwords do not match"@,
    {
        if self.password != self.confirm_password {
            Some(String::from_str("Passwords do not match"))
        } else {
            None
        }
    }
}

/// The form that names a new board.
#[derive(Debug, Clone, PartialEq, Eq)]
pub struct BoardForm {
    pub name: String,
}

impl BoardForm {
    /// The messages `field` shows.
    pub fn messages(&self, field: &str) -> (r: Vec<String>)
        ensures
            texts(r@) == (if field@ == "name"@ {
                length_messages(self.name@, 3, "Name must be at least 3 characters"@)
            } else {
                Seq::empty()
            }),
    {
        if same(field, "name") {
            length_check(self.name.as_str(), 3, "Name must be at least 3 characters")
        } else {
            let r: Vec<String> = Vec::new();
            assert(texts(r@) =~= Seq::<Seq<char>>::empty());
            r
        }
    }
}

/// The form that shares a board with a user.
#[derive(Debug, Clone, PartialEq, Eq)]
pub struct ShareForm {
    pub email: String,
}

impl ShareForm {
    /// The messages `field` shows.
    pub fn messages(&self, field: &str) -> (r: Vec<String>)
        ensures
            texts(r@) == (if field@ == "email"@ {
                email_messages(self.email@)
            } else {
                Seq::empty()
            }),
    {
        if same(field, "email") {
            email_check(self.email.as_str())
        } else {
            let r: Vec<String> = Vec::new();
            assert(texts(r@) =~= Seq::<Seq<char>>::empty());
            r
        }
    }
}

/// The messages a form shows, by field.
pub struct FormErrors {
    entries: Vec<(String, Vec<String>)>,
}

pub open spec fn error_pairs(es: Seq<(String, Vec<String>)>) -> Seq<(Seq<char>, Seq<Seq<char>>)> {
    es.map_values(|e: (String, Vec<String>)| (e.0@, texts(e.1@)))
}

impl FormErrors {
    pub closed spec fn wf(self) -> bool {
        unique_keys(error_pairs(self.entries@))
    }

    /// The messages shown, by field name.
    pub closed spec fn state(self) -> Map<Seq<char>, Seq<Seq<char>>> {
        pairs_to_map(error_pairs(self.entries@))
    }

    /// No field shows anything.
    pub fn new() -> (r: FormErrors)
        ensures
            r.wf(),
            r.state() == Map::<Seq<char>, Seq<Seq<char>>>::empty(),
    {
        let r = FormErrors { entries: Vec::new() };
        assert(error_pairs(r.entries@) =~= Seq::<(Seq<char>, Seq<Seq<char>>)>::empty());
        r
    }

    /// What a field shows after it is left: its current messages, or
    /// nothing when it has none; the other fields keep theirs.
    pub fn refresh(&mut self, field: &String, messages: Vec<String>)
        requires
            old(self).wf(),
        ensures
            final(self).wf(),
            messages@.len() == 0 ==> final(self).state() == old(self).state().remove(field@),
            messages@.len() > 0 ==> final(self).state() == old(self).state().insert(field@, texts(messages@)),
    {
        let ghost before = error_pairs(self.entries@);
        let mut j: usize = 0;
        while j < self.entries.len()
            invariant
                j <= self.entries@.len(),
                before == error_pairs(self.entries@),
                before == error_pairs(old(self).entries@),
                unique_keys(before),
                forall|k: int| 0 <= k < j ==> self.entries@[k].0@ != field@,
            decreases self.entries@.len() - j,
        {
            if self.entries[j].0 == *field {
                if messages.len() == 0 {
                    proof {
                        lemma_remove(before, j as int);
                    }
                    self.entries.remove(j);
                    assert(error_pairs(self.entries@) =~= before.remove(j as int));
                } else {
                    proof {
                        lemma_update(before, j as int, texts(messages@));
                    }
                    let ghost m = messages@;
                    self.entries.set(j, (field.clone(), messages));
                    assert(error_pairs(self.entries@) =~= before.update(j as int, (before[j as int].0, texts(m))));
                }
                return;
            }
            j = j + 1;
        }
        assert(!has_key(before, field@));
        proof {
            lemma_dom(before, field@);
        }
        if messages.len() == 0 {
            assert(pairs_to_map(before).remove(field@) =~= pairs_to_map(before));
        } else {
            let ghost p = (field@, texts(messages@));
            proof {
                lemma_push(before, p);
                lemma_push_unique(before, p);
            }
            self.entries.push((field.clone(), messages));
            assert(error_pairs(self.entries@) =~= before.push(p));
        }
    }
}


fn copy_texts(v: &Vec<String>) -> (r: Vec<String>)
    ensures
        texts(r@) == texts(v@),
{
    let mut r: Vec<String> = Vec::new();
    let mut i: usize = 0;
    while i < v.len()
        invariant
            i <= v@.len(),
            r@ == v@.subrange(0, i as int),
        decreases v@.len() - i,
    {
        r.push(v[i].clone());
        i = i + 1;
        assert(r@ =~= v@.subrange(0, i as int));
    }
    assert(v@.subrange(0, v@.len() as int) =~= v@);
    r
}

impl FormErrors {
    /// The messages `field` shows, or `None` when it shows none.
    pub fn get(&self, field: &String) -> (r: Option<Vec<String>>)
        requires
            self.wf(),
        ensures
            r is Some <==> self.state().dom().contains(field@),
            r matches Some(v) ==> texts(v@) == self.state()[field@],
    {
        let ghost es = error_pairs(self.entries@);
        proof {
            lemma_dom(es, field@);
        }
        let mut j: usize = 0;
        while j < self.entries.len()
            invariant
                j <= self.entries@.len(),
                es == error_pairs(self.entries@),
                unique_keys(es),
                forall|k: int| 0 <= k < j ==> self.entries@[k].0@ != field@,
            decreases self.entries@.len() - j,
        {
            if self.entries[j].0 == *field {
                proof {
                    lemma_value(es, j as int);
                }
                return Some(copy_texts(&self.entries[j].1));
            }
            j = j + 1;
        }
        assert(!has_key(es, field@));
        None
    }
}

} // verus!

verus! {

/// What submitting a form does.
#[derive(Debug, Clone, PartialEq, Eq)]
pub enum Submission {
    /// Nothing is sent; the fields show their messages.
    ShowErrors,
    /// Nothing is sent; the form shows this message.
    ShowMessage(String),
    /// The request is sent.
    Send,
}

impl LoginForm {
    /// Submitting the login form: it is sent when no field shows a message.
    pub fn submit(&self) -> (r: Submission)
        ensures
            r == (if login_form_messages(*self, "email"@).len() == 0 && login_form_messages(*self, "password"@).len() == 0 {
                Submission::Send
            } else {
                Submission::ShowErrors
            }),
    {
        if self.is_valid() {
            Submission::Send
        } else {
            Submission::ShowErrors
        }
    }
}

impl RegisterForm {
    /// Submitting the registration form: with a field showing a message the
    /// fields show theirs; with passwords that differ the form says so;
    /// otherwise it is sent.
    pub fn submit(&self) -> (r: Submission)
        ensures
            !(register_form_messages(*self, "name"@).len() == 0
                && register_form_messages(*self, "surname"@).len() == 0
                && register_form_messages(*self, "email"@).len() == 0
                && register_form_messages(*self, "password"@).len() == 0
                && register_form_messages(*self, "confirm_password"@).len() == 0) ==> r == Submission::ShowErrors,
            (register_form_messages(*self, "name"@).len() == 0
                && register_form_messages(*self, "surname"@).len() == 0
                && register_form_messages(*self, "email"@).len() == 0
                && register_form_messages(*self, "password"@).len() == 0
                && register_form_messages(*self, "confirm_password"@).len() == 0) ==> {
                &&& self.password@ != self.confirm_password@ ==> (r matches Submission::ShowMessage(m)
                    && m@ == "Passwords do not match"@)
                &&& self.password@ == self.confirm_password@ ==> r == Submission::Send
            },
    {
        if !self.is_valid() {
            return Submission::ShowErrors;
        }
        match self.password_mismatch() {
            Some(m) => Submission::ShowMessage(m),
            None => Submission::Send,
        }
    }
}

impl BoardForm {
    /// Whether the form may be sent: its name shows no message.
    pub fn is_valid(&self) -> (b: bool)
        ensures
            b == (length_messages(self.name@, 3, "Name must be at least 3 characters"@).len() == 0),
    {
        self.messages("name").len() == 0
    }

    /// Submitting the new-board form: it is sent when the name shows no
    /// message.
    pub fn submit(&self) -> (r: Submission)
        ensures
            r == (if length_messages(self.name@, 3, "Name must be at least 3 characters"@).len() == 0 {
                Submission::Send
            } else {
                Submission::ShowErrors
            }),
    {
        if self.is_valid() {
            Submission::Send
        } else {
            Submission::ShowErrors
        }
    }
}

impl ShareForm {
    /// Submitting the share form for `board_id` with the role chosen by
    /// name: the invitation to send, or `None` when the address shows a
    /// message (then the field shows it).
    pub fn invitation(&self, board_id: i32, role: &str) -> (r: Option<InvitationPayload>)
        ensures
            r is Some <==> email_messages(self.email@).len() == 0,
            r matches Some(p) ==> p.user_email == self.email && p.board_id == board_id
                && p.role == spec_role_code(role@),
    {
        if self.messages("email").len() == 0 {
            Some(InvitationPayload { user_email: self.email.clone(), board_id, role: role_code(role) })
        } else {
            None
        }
    }
}

} // verus!
