//! The accounts page: one card per stored account, and the form that
//! creates or edits accounts. Saving and deleting are done by the caller,
//! which owns the database: `update` hands back a `Command`, and the
//! outcome of a save is reported back with `finish_create` or
//! `finish_modify`.

pub mod account_card;
pub mod new_account_form;

use std::collections::HashMap;
use vstd::prelude::*;
use crate::forms::new_account_form::{apply_edit, FormMode, NewAccountForm};
use crate::models::account::{
    account_fields_error, account_is_complete, is_new_account_result, Account, AccountSaveError,
    AccountValidationError,
};
use crate::password_screen::account_card::AccountCard;

verus! {

broadcast use vstd::std_specs::hash::group_hash_axioms;

pub const EMPTY_SITE_NAME_MESSAGE: &'static str = "Пустое название сайта";
pub const EMPTY_LOGIN_MESSAGE: &'static str = "Пустой логин";
pub const EMPTY_PASSWORD_MESSAGE: &'static str = "Пустой пароль";
pub const DUPLICATE_ACCOUNT_MESSAGE: &'static str = "Уже есть аккаунт с таким названием сайта и логином";

/// The message the form shows for a refused field.
pub open spec fn validation_message(e: AccountValidationError) -> &'static str {
    match e {
        AccountValidationError::EmptySiteName => EMPTY_SITE_NAME_MESSAGE,
        AccountValidationError::EmptyLogin => EMPTY_LOGIN_MESSAGE,
        AccountValidationError::EmptyPassword => EMPTY_PASSWORD_MESSAGE,
    }
}

pub struct PasswordScreen {
    account_cards: HashMap<u128, AccountCard>,
    new_account_form: NewAccountForm,
    new_account_form_opened: bool,
}

#[derive(Clone)]
pub enum Message {
    OpenNewAccount,
    NewAccountFormMessage(crate::forms::new_account_form::Message),
    AccountCardMessage(u128, account_card::Message),
}

/// What the caller must do with the database after an update.
pub enum Command {
    Nothing,
    /// Store this new account, then report with `finish_create`.
    SaveNewAccount(Account),
    /// Store the (already edited) account of this card, then report with
    /// `finish_modify`.
    SaveAccount(u128),
    /// Delete this account, whose card is already gone.
    DeleteAccount(Account),
}

/// The accounts that a list gives, by identifier; a later account replaces
/// an earlier one with the same identifier.
pub open spec fn latest_by_id(accounts: Seq<Account>) -> Map<u128, Account>
    decreases accounts.len(),
{
    if accounts.len() == 0 {
        Map::empty()
    } else {
        latest_by_id(accounts.drop_last()).insert(accounts.last()@.id, accounts.last())
    }
}

/// A list's accounts are filed under exactly the identifiers that occur in
/// it.
pub proof fn lemma_latest_by_id_domain(accounts: Seq<Account>, id: u128)
    ensures
        latest_by_id(accounts).contains_key(id) <==> exists|i: int|
            0 <= i < accounts.len() && #[trigger] accounts[i]@.id == id,
    decreases accounts.len(),
{
    if accounts.len() > 0 {
        let rest = accounts.drop_last();
        lemma_latest_by_id_domain(rest, id);
        if latest_by_id(accounts).contains_key(id) && accounts.last()@.id != id {
            let i = choose|i: int| 0 <= i < rest.len() && #[trigger] rest[i]@.id == id;
            assert(accounts[i]@.id == id);
        }
        if exists|i: int| 0 <= i < accounts.len() && #[trigger] accounts[i]@.id == id {
            let i = choose|i: int| 0 <= i < accounts.len() && #[trigger] accounts[i]@.id == id;
            if i < accounts.len() - 1 {
                assert(rest[i]@.id == id);
            }
        }
    }
}

/// The account filed under an identifier is the last one in the list with
/// that identifier.
pub proof fn lemma_latest_by_id_keeps_last(accounts: Seq<Account>, i: int)
    requires
        0 <= i < accounts.len(),
        forall|j: int| i < j < accounts.len() ==> #[trigger] accounts[j]@.id != accounts[i]@.id,
    ensures
        latest_by_id(accounts).contains_key(accounts[i]@.id),
        latest_by_id(accounts)[accounts[i]@.id] == accounts[i],
    decreases accounts.len(),
{
    if i < accounts.len() - 1 {
        let rest = accounts.drop_last();
        assert forall|j: int| i < j < rest.len() implies #[trigger] rest[j]@.id != rest[i]@.id by {
            assert(rest[j] == accounts[j]);
        }
        lemma_latest_by_id_keeps_last(rest, i);
        assert(accounts.last()@.id != accounts[i]@.id) by {
            assert(accounts.last() == accounts[accounts.len() - 1]);
        }
    }
}

/// Every card of the map is filed under its account's identifier.
pub open spec fn cards_filed_by_id(m: Map<u128, AccountCard>) -> bool {
    forall|id: u128| #[trigger] m.contains_key(id) ==> m[id].held_account()@.id == id
}

proof fn lemma_filed_insert(m: Map<u128, AccountCard>, id: u128, card: AccountCard)
    requires
        cards_filed_by_id(m),
        card.held_account()@.id == id,
    ensures
        cards_filed_by_id(m.insert(id, card)),
{
    assert forall|k: u128| #[trigger] m.insert(id, card).contains_key(k) implies m.insert(
        id,
        card,
    )[k].held_account()@.id == k by {
        if k != id {
            assert(m.contains_key(k));
        }
    }
}

proof fn lemma_filed_remove(m: Map<u128, AccountCard>, id: u128)
    requires
        cards_filed_by_id(m),
    ensures
        cards_filed_by_id(m.remove(id)),
{
    assert forall|k: u128| #[trigger] m.remove(id).contains_key(k) implies m.remove(
        id,
    )[k].held_account()@.id == k by {
        assert(m.contains_key(k));
    }
}

impl PasswordScreen {
    pub closed spec fn cards(&self) -> Map<u128, AccountCard> {
        self.account_cards@
    }

    pub closed spec fn form(&self) -> NewAccountForm {
        self.new_account_form
    }

    pub closed spec fn form_opened(&self) -> bool {
        self.new_account_form_opened
    }

    /// Every card is filed under its account's identifier.
    pub open spec fn wf(&self) -> bool {
        cards_filed_by_id(self.cards())
    }

    /// The messages that `update` handles: those naming a card that exists,
    /// and a submit of an edit whose card still exists.
    pub open spec fn handles(&self, msg: Message) -> bool {
        match msg {
            Message::AccountCardMessage(id, _) => self.cards().contains_key(id),
            Message::NewAccountFormMessage(m) => match m {
                crate::forms::new_account_form::Message::Submit => match self.form().mode {
                    FormMode::Modify(id) => self.cards().contains_key(id),
                    FormMode::Create => true,
                },
                _ => true,
            },
            Message::OpenNewAccount => true,
        }
    }

    /// The cards are those of `old` except that card `id` has `account` in
    /// place of its account and keeps its visibility.
    pub open spec fn replaces_account(self, old: PasswordScreen, id: u128, account: crate::models::account::AccountData) -> bool {
        &&& self.cards().dom() == old.cards().dom()
        &&& forall|k: u128| #[trigger] self.cards().contains_key(k) && k != id ==> self.cards()[k] == old.cards()[k]
        &&& self.cards()[id].held_account()@ == account
        &&& self.cards()[id].is_password_visible() == old.cards()[id].is_password_visible()
    }

    /// What a submit of the form does.
    pub open spec fn submitted(self, old: PasswordScreen, cmd: Command) -> bool {
        let f = old.form();
        let err = account_fields_error(f.site_name@, f.login@, f.password@);
        &&& self.form_opened() == old.form_opened()
        &&& match err {
            None => self.form().is_blank(),
            Some(e) => self.form().is_cleared_with(Some(validation_message(e))),
        }
        &&& match f.mode {
            FormMode::Create => {
                &&& self.cards() == old.cards()
                &&& match cmd {
                    Command::SaveNewAccount(a) => is_new_account_result(
                        Ok(a),
                        f.site_name@,
                        f.login@,
                        f.password@,
                    ),
                    Command::Nothing => err is Some,
                    _ => false,
                }
            },
            FormMode::Modify(id) => {
                &&& self.replaces_account(
                    old,
                    id,
                    apply_edit(old.cards()[id].held_account()@, f.site_name@, f.login@, f.password@),
                )
                &&& match cmd {
                    Command::SaveAccount(i) => i == id && err is None,
                    Command::Nothing => err is Some,
                    _ => false,
                }
            },
        }
    }

    /// The page showing the given accounts, with every password hidden and
    /// the form closed.
    pub fn new(accounts: Vec<Account>) -> (res: Self)
        ensures
            res.wf(),
            res.cards().dom() == latest_by_id(accounts@).dom(),
            forall|id: u128| #[trigger]
                res.cards().contains_key(id) ==> res.cards()[id].held_account() == latest_by_id(accounts@)[id]
                    && !res.cards()[id].is_password_visible(),
            res.form().is_blank(),
            !res.form_opened(),
    {
        let ghost all = accounts@;
        let mut account_cards: HashMap<u128, AccountCard> = HashMap::new();
        let mut rest = accounts;
        let ghost mut taken: Seq<Account> = Seq::empty();
        while rest.len() > 0
            invariant
                all == taken + rest@,
                account_cards@.dom() == latest_by_id(taken).dom(),
                forall|id: u128| #[trigger]
                    account_cards@.contains_key(id) ==> account_cards@[id].held_account()
                        == latest_by_id(taken)[id] && !account_cards@[id].is_password_visible()
                        && account_cards@[id].held_account()@.id == id,
            decreases rest.len(),
        {
            let acc = rest.remove(0);
            let id = acc.id();
            let ghost before = taken;
            proof {
                assert(all[before.len() as int] == acc);
            }
            account_cards.insert(id, AccountCard::new(acc));
            proof {
                assert(latest_by_id(before.push(acc)) == latest_by_id(before).insert(acc@.id, acc)) by {
                    assert(before.push(acc).drop_last() =~= before);
                }
            }
            proof {
                taken = taken.push(acc);
                assert(all =~= taken + rest@);
            }
        }
        proof {
            assert(taken =~= all);
        }
        PasswordScreen {
            account_cards,
            new_account_form: NewAccountForm::default(),
            new_account_form_opened: false,
        }
    }
}


impl PasswordScreen {
    /// Whether `update` handles a message (see `handles`).
    pub fn can_handle(&self, msg: &Message) -> (ok: bool)
        ensures
            ok == self.handles(*msg),
    {
        match msg {
            Message::AccountCardMessage(id, _) => self.account_cards.contains_key(id),
            Message::NewAccountFormMessage(m) => match m {
                crate::forms::new_account_form::Message::Submit => match self.new_account_form.mode {
                    FormMode::Modify(id) => self.account_cards.contains_key(&id),
                    FormMode::Create => true,
                },
                _ => true,
            },
            Message::OpenNewAccount => true,
        }
    }

    /// How `update` changes the page and what it hands back, for each
    /// message.
    pub open spec fn updated(self, old: PasswordScreen, msg: Message, cmd: Command) -> bool {
        match msg {
            Message::OpenNewAccount => {
                &&& self.cards() == old.cards()
                &&& self.form_opened()
                &&& self.form().is_blank()
                &&& cmd is Nothing
            },
            Message::NewAccountFormMessage(m) => match m {
                crate::forms::new_account_form::Message::Cancel => {
                    &&& self.cards() == old.cards()
                    &&& !self.form_opened()
                    &&& self.form().is_blank()
                    &&& cmd is Nothing
                },
                crate::forms::new_account_form::Message::Submit => self.submitted(
                    old,
                    cmd,
                ),
                _ => {
                    &&& self.cards() == old.cards()
                    &&& self.form_opened() == old.form_opened()
                    &&& self.form() == old.form().after_input(m)
                    &&& cmd is Nothing
                },
            },
            Message::AccountCardMessage(id, m) => match m {
                account_card::Message::DeleteAccount => {
                    &&& self.cards() == old.cards().remove(id)
                    &&& self.form() == old.form()
                    &&& self.form_opened() == old.form_opened()
                    &&& cmd matches Command::DeleteAccount(a) && a == old.cards()[id].held_account()
                },
                account_card::Message::ModifyAccount => {
                    let a = old.cards()[id].held_account()@;
                    &&& self.cards() == old.cards()
                    &&& self.form_opened()
                    &&& self.form().mode == FormMode::Modify(id)
                    &&& self.form().site_name@ == a.site_name
                    &&& self.form().login@ == a.login
                    &&& self.form().password@ == a.password
                    &&& self.form().error is None
                    &&& cmd is Nothing
                },
                account_card::Message::TogglePasswordVisibility => {
                    &&& self.cards().dom() == old.cards().dom()
                    &&& forall|k: u128| #[trigger]
                        self.cards().contains_key(k) && k != id ==> self.cards()[k]
                            == old.cards()[k]
                    &&& self.cards()[id].held_account() == old.cards()[id].held_account()
                    &&& self.cards()[id].is_password_visible() == !old.cards()[id].is_password_visible()
                    &&& self.form() == old.form()
                    &&& self.form_opened() == old.form_opened()
                    &&& cmd is Nothing
                },
            },
        }
    }

    /// Handles a message of the page. A save or a delete is handed back to
    /// the caller as a `Command`.
    pub fn update(&mut self, msg: Message) -> (cmd: Command)
        requires
            old(self).wf(),
            old(self).handles(msg),
        ensures
            final(self).wf(),
            final(self).updated(*old(self), msg, cmd),
    {
        match msg {
            Message::OpenNewAccount => {
                self.open_form();
                Command::Nothing
            },
            Message::NewAccountFormMessage(msg) => match msg {
                crate::forms::new_account_form::Message::Cancel => {
                    self.close_form();
                    Command::Nothing
                },
                crate::forms::new_account_form::Message::Submit => self.handle_form_submit(),
                _ => {
                    self.new_account_form.update(msg);
                    Command::Nothing
                },
            },
            Message::AccountCardMessage(id, msg) => match msg {
                account_card::Message::DeleteAccount => self.handle_delete_acc(id),
                account_card::Message::ModifyAccount => {
                    self.handle_open_modify(id);
                    Command::Nothing
                },
                _ => {
                    let mut card = self.account_cards.remove(&id).unwrap();
                    card.update(msg);
                    proof {
                        lemma_filed_remove(old(self).cards(), id);
                        lemma_filed_insert(self.cards(), id, card);
                    }
                    self.account_cards.insert(id, card);
                    Command::Nothing
                },
            },
        }
    }

    fn open_form(&mut self)
        ensures
            final(self).cards() == old(self).cards(),
            final(self).form_opened(),
            final(self).form().is_blank(),
    {
        self.new_account_form_opened = true;
        self.new_account_form = NewAccountForm::default();
    }

    fn close_form(&mut self)
        ensures
            final(self).cards() == old(self).cards(),
            !final(self).form_opened(),
            final(self).form().is_blank(),
    {
        self.new_account_form_opened = false;
        self.new_account_form = NewAccountForm::default();
    }

    fn handle_form_submit(&mut self) -> (cmd: Command)
        requires
            old(self).wf(),
            old(self).form().mode matches FormMode::Modify(id) ==> old(self).cards().contains_key(id),
        ensures
            final(self).wf(),
            final(self).submitted(*old(self), cmd),
    {
        match self.new_account_form.mode {
            FormMode::Create => {
                let res = self.new_account_form.create_account();
                match res {
                    Ok(acc) => Command::SaveNewAccount(acc),
                    Err(e) => {
                        self.handle_validation_error(e);
                        Command::Nothing
                    },
                }
            },
            FormMode::Modify(id) => {
                let mut card = self.account_cards.remove(&id).unwrap();
                let res = self.new_account_form.modify_account(card.account_mut());
                proof {
                    lemma_filed_remove(old(self).cards(), id);
                    lemma_filed_insert(self.cards(), id, card);
                }
                self.account_cards.insert(id, card);
                match res {
                    Ok(_) => Command::SaveAccount(id),
                    Err(e) => {
                        self.handle_validation_error(e);
                        Command::Nothing
                    },
                }
            },
        }
    }

    fn handle_open_modify(&mut self, id: u128)
        requires
            old(self).wf(),
            old(self).cards().contains_key(id),
        ensures
            final(self).cards() == old(self).cards(),
            final(self).form_opened(),
            final(self).form().mode == FormMode::Modify(id),
            final(self).form().site_name@ == old(self).cards()[id].held_account()@.site_name,
            final(self).form().login@ == old(self).cards()[id].held_account()@.login,
            final(self).form().password@ == old(self).cards()[id].held_account()@.password,
            final(self).form().error is None,
    {
        let acc = self.account_cards.get(&id).unwrap().account();
        self.new_account_form.init_modify(acc);
        self.new_account_form_opened = true;
    }

    fn handle_delete_acc(&mut self, id: u128) -> (cmd: Command)
        requires
            old(self).wf(),
            old(self).cards().contains_key(id),
        ensures
            final(self).wf(),
            final(self).cards() == old(self).cards().remove(id),
            final(self).form() == old(self).form(),
            final(self).form_opened() == old(self).form_opened(),
            cmd matches Command::DeleteAccount(a) && a == old(self).cards()[id].held_account(),
    {
        let card = self.account_cards.remove(&id).unwrap();
        proof {
            lemma_filed_remove(old(self).cards(), id);
        }
        Command::DeleteAccount(card.into_account())
    }

    fn handle_validation_error(&mut self, err: AccountValidationError)
        ensures
            final(self).cards() == old(self).cards(),
            final(self).form_opened() == old(self).form_opened(),
            final(self).form() == (NewAccountForm {
                error: Some(validation_message(err)),
                ..old(self).form()
            }),
    {
        match err {
            AccountValidationError::EmptySiteName => {
                self.new_account_form.error = Some(EMPTY_SITE_NAME_MESSAGE)
            },
            AccountValidationError::EmptyLogin => {
                self.new_account_form.error = Some(EMPTY_LOGIN_MESSAGE)
            },
            AccountValidationError::EmptyPassword => {
                self.new_account_form.error = Some(EMPTY_PASSWORD_MESSAGE)
            },
        }
    }

    /// A failed save of a new account leaves the page as it is: the form
    /// stays open, already emptied, and shows no error.
    fn handle_save_error(&mut self)
        ensures
            *final(self) == *old(self),
    {
    }

    /// What reporting the outcome of storing a new account does: when it was
    /// stored, it gets a card (password hidden) and the form closes;
    /// otherwise nothing changes.
    pub open spec fn finished_create(
        self,
        old: PasswordScreen,
        acc: Account,
        saved: Result<(), AccountSaveError>,
    ) -> bool {
        if saved is Ok {
            &&& self.cards().dom() == old.cards().dom().insert(acc@.id)
            &&& self.cards()[acc@.id].held_account() == acc
            &&& !self.cards()[acc@.id].is_password_visible()
            &&& forall|k: u128| #[trigger]
                self.cards().contains_key(k) && k != acc@.id ==> self.cards()[k] == old.cards()[k]
            &&& !self.form_opened()
            &&& self.form() == old.form()
        } else {
            self == old
        }
    }

    /// What reporting the outcome of storing an edited account does: when
    /// it was stored the form closes; otherwise it stays open and says that
    /// the site name and login are taken. The card keeps the edit either way.
    pub open spec fn finished_modify(
        self,
        old: PasswordScreen,
        saved: Result<(), AccountSaveError>,
    ) -> bool {
        &&& self.cards() == old.cards()
        &&& if saved is Ok {
            !self.form_opened() && self.form() == old.form()
        } else {
            self.form_opened() == old.form_opened() && self.form() == (NewAccountForm {
                error: Some(DUPLICATE_ACCOUNT_MESSAGE),
                ..old.form()
            })
        }
    }

    /// Reports the outcome of storing a new account.
    pub fn finish_create(&mut self, acc: Account, saved: Result<(), AccountSaveError>)
        requires
            old(self).wf(),
        ensures
            final(self).wf(),
            final(self).finished_create(*old(self), acc, saved),
    {
        match saved {
            Ok(_) => {
                let id = acc.id();
                let card = AccountCard::new(acc);
                proof {
                    lemma_filed_insert(self.cards(), id, card);
                }
                self.account_cards.insert(id, card);
                self.new_account_form_opened = false;
            },
            Err(_) => {
                self.handle_save_error();
            },
        }
    }

    /// Reports the outcome of storing an edited account.
    pub fn finish_modify(&mut self, saved: Result<(), AccountSaveError>)
        requires
            old(self).wf(),
        ensures
            final(self).wf(),
            final(self).finished_modify(*old(self), saved),
    {
        match saved {
            Ok(_) => self.new_account_form_opened = false,
            Err(_) => self.new_account_form.error = Some(DUPLICATE_ACCOUNT_MESSAGE),
        }
    }

    /// The cards, by account identifier.
    pub fn account_cards(&self) -> (cards: &HashMap<u128, AccountCard>)
        ensures
            cards@ == self.cards(),
    {
        &self.account_cards
    }

    pub fn new_account_form(&self) -> (form: &NewAccountForm)
        ensures
            *form == self.form(),
    {
        &self.new_account_form
    }

    pub fn new_account_form_opened(&self) -> (opened: bool)
        ensures
            opened == self.form_opened(),
    {
        self.new_account_form_opened
    }
}

/// Opening a complete account for editing and submitting the form without
/// changes asks to store the account as it was, the card keeps it, and the
/// form is emptied.
pub proof fn lemma_unchanged_edit_saves_same_account(
    s0: PasswordScreen,
    s1: PasswordScreen,
    s2: PasswordScreen,
    id: u128,
    c1: Command,
    c2: Command,
)
    requires
        s0.wf(),
        s0.cards().contains_key(id),
        account_is_complete(s0.cards()[id].held_account()@),
        s1.updated(s0, Message::AccountCardMessage(id, account_card::Message::ModifyAccount), c1),
        s2.updated(
            s1,
            Message::NewAccountFormMessage(crate::forms::new_account_form::Message::Submit),
            c2,
        ),
    ensures
        c2 == Command::SaveAccount(id),
        s2.cards().dom() == s0.cards().dom(),
        s2.cards()[id].held_account()@ == s0.cards()[id].held_account()@,
        s2.form().is_blank(),
{
}

/// Submitting an edit with all three fields filled in asks to store the
/// edited account, and its card then holds exactly the typed site name,
/// login and password under the same identifier, with the other cards
/// untouched.
pub proof fn lemma_complete_edit_saves_typed_fields(
    s1: PasswordScreen,
    s2: PasswordScreen,
    id: u128,
    cmd: Command,
)
    requires
        s1.wf(),
        s1.cards().contains_key(id),
        s1.form().mode == FormMode::Modify(id),
        s1.form().site_name@.len() > 0,
        s1.form().login@.len() > 0,
        s1.form().password@.len() > 0,
        s2.updated(
            s1,
            Message::NewAccountFormMessage(crate::forms::new_account_form::Message::Submit),
            cmd,
        ),
    ensures
        cmd == Command::SaveAccount(id),
        s2.cards().dom() == s1.cards().dom(),
        forall|k: u128| #[trigger] s2.cards().contains_key(k) && k != id ==> s2.cards()[k] == s1.cards()[k],
        s2.cards()[id].held_account()@ == (crate::models::account::AccountData {
            id,
            site_name: s1.form().site_name@,
            login: s1.form().login@,
            password: s1.form().password@,
        }),
        s2.form().is_blank(),
{
}

/// Opening a complete account for editing, typing a new non-empty password
/// and submitting asks to store the account, and its card then holds the
/// typed password with the site name, login and identifier as they were.
pub proof fn lemma_edited_password_is_saved(
    s0: PasswordScreen,
    s1: PasswordScreen,
    s2: PasswordScreen,
    s3: PasswordScreen,
    id: u128,
    p: String,
    c1: Command,
    c2: Command,
    c3: Command,
)
    requires
        s0.wf(),
        s0.cards().contains_key(id),
        account_is_complete(s0.cards()[id].held_account()@),
        p@.len() > 0,
        s1.updated(s0, Message::AccountCardMessage(id, account_card::Message::ModifyAccount), c1),
        s2.updated(
            s1,
            Message::NewAccountFormMessage(crate::forms::new_account_form::Message::SetPassword(p)),
            c2,
        ),
        s3.updated(
            s2,
            Message::NewAccountFormMessage(crate::forms::new_account_form::Message::Submit),
            c3,
        ),
    ensures
        c3 == Command::SaveAccount(id),
        s3.cards()[id].held_account()@.password == p@,
        s3.cards()[id].held_account()@ == (crate::models::account::AccountData {
            password: p@,
            ..s0.cards()[id].held_account()@
        }),
{
}

/// Submitting the form while creating, with all three fields filled in,
/// asks to store a new account holding exactly the typed fields, and
/// empties the form; the cards do not change until the caller reports the
/// save.
pub proof fn lemma_complete_form_saves_new_account(s1: PasswordScreen, s2: PasswordScreen, cmd: Command)
    requires
        s1.form().mode == FormMode::Create,
        s1.form().site_name@.len() > 0,
        s1.form().login@.len() > 0,
        s1.form().password@.len() > 0,
        s2.updated(
            s1,
            Message::NewAccountFormMessage(crate::forms::new_account_form::Message::Submit),
            cmd,
        ),
    ensures
        cmd matches Command::SaveNewAccount(a) && a@.site_name == s1.form().site_name@ && a@.login
            == s1.form().login@ && a@.password == s1.form().password@,
        s2.cards() == s1.cards(),
        s2.form().is_blank(),
{
}

/// Submitting the form with an empty field asks to store nothing and names
/// the first empty field; while creating, the cards stay as they were.
pub proof fn lemma_incomplete_form_saves_nothing(s1: PasswordScreen, s2: PasswordScreen, cmd: Command)
    requires
        s1.wf(),
        s1.form().mode matches FormMode::Modify(id) ==> s1.cards().contains_key(id),
        s1.form().site_name@.len() == 0 || s1.form().login@.len() == 0
            || s1.form().password@.len() == 0,
        s2.updated(
            s1,
            Message::NewAccountFormMessage(crate::forms::new_account_form::Message::Submit),
            cmd,
        ),
    ensures
        cmd is Nothing,
        s1.form().site_name@.len() == 0 ==> s2.form().error == Some(EMPTY_SITE_NAME_MESSAGE),
        s1.form().site_name@.len() > 0 && s1.form().login@.len() == 0 ==> s2.form().error == Some(
            EMPTY_LOGIN_MESSAGE,
        ),
        s1.form().site_name@.len() > 0 && s1.form().login@.len() > 0 ==> s2.form().error == Some(
            EMPTY_PASSWORD_MESSAGE,
        ),
        s1.form().mode == FormMode::Create ==> s2.cards() == s1.cards(),
{
}

/// Deleting the card of an account that was just created and stored gives
/// back the cards as they were before, and hands back that account.
pub proof fn lemma_delete_undoes_create(
    s0: PasswordScreen,
    s1: PasswordScreen,
    s2: PasswordScreen,
    acc: Account,
    cmd: Command,
)
    requires
        !s0.cards().contains_key(acc@.id),
        s1.finished_create(s0, acc, Ok(())),
        s2.updated(
            s1,
            Message::AccountCardMessage(acc@.id, account_card::Message::DeleteAccount),
            cmd,
        ),
    ensures
        s2.cards() == s0.cards(),
        cmd == Command::DeleteAccount(acc),
{
    assert(s2.cards() =~= s0.cards());
}

} // verus!
