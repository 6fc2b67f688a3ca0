//! The codes page: one card per stored TOTP key with its current code, a
//! countdown to the next refresh, and the form that adds keys. Saving and
//! deleting are done by the caller, which owns the database: `update` hands
//! back a `Command`, and the outcome of a save is reported back with
//! `finish_create`.

pub mod totp_card;

use std::collections::HashMap;
use vstd::prelude::*;
use crate::forms::new_totp_form::NewTotpForm;
use crate::models::totp::{
    base32_decoded, code_at, is_base32_text, is_new_key_result, totp_fields_error, TotpKey,
    TotpSaveError, TotpValidationError,
};
use crate::totp_screen::totp_card::TotpCard;

verus! {

broadcast use vstd::std_specs::hash::group_hash_axioms;

pub const EMPTY_SITE_NAME_MESSAGE: &'static str = "Пустое название сайта";
pub const EMPTY_LOGIN_MESSAGE: &'static str = "Пустой логин";
pub const BAD_SECRET_MESSAGE: &'static str = "Невалидный секрет";
pub const DUPLICATE_KEY_MESSAGE: &'static str = "Уже есть ключ с таким названием сайта и логином";

/// Seconds between two refreshes of the codes.
pub const REFRESH_PERIOD: u8 = 30;

/// The message the form shows for a refused field.
pub open spec fn validation_message(e: TotpValidationError) -> &'static str {
    match e {
        TotpValidationError::EmptySiteName => EMPTY_SITE_NAME_MESSAGE,
        TotpValidationError::EmptyLogin => EMPTY_LOGIN_MESSAGE,
        TotpValidationError::BadSecret => BAD_SECRET_MESSAGE,
    }
}

pub struct TotpScreen {
    keys: HashMap<u128, TotpCard>,
    timer: u8,
    new_totp_form: NewTotpForm,
    new_totp_form_opened: bool,
}

#[derive(Clone)]
pub enum Message {
    OpenNewTotp,
    /// One second has passed; the UNIX time (in seconds) is now the value.
    Tick(u64),
    NewTotpFormMessage(crate::forms::new_totp_form::Message),
    TotpCardMessage(u128, totp_card::Message),
}

/// What the caller must do with the database after an update.
pub enum Command {
    Nothing,
    /// Store this new key, then report with `finish_create`.
    SaveNewKey(TotpKey),
    /// Delete this key, whose card is already gone.
    DeleteKey(TotpKey),
}

/// The keys that a list gives, by identifier; a later key replaces an
/// earlier one with the same identifier.
pub open spec fn latest_keys_by_id(keys: Seq<TotpKey>) -> Map<u128, TotpKey>
    decreases keys.len(),
{
    if keys.len() == 0 {
        Map::empty()
    } else {
        latest_keys_by_id(keys.drop_last()).insert(keys.last()@.id, keys.last())
    }
}

/// A list's keys are filed under exactly the identifiers that occur in it.
pub proof fn lemma_latest_keys_by_id_domain(keys: Seq<TotpKey>, id: u128)
    ensures
        latest_keys_by_id(keys).contains_key(id) <==> exists|i: int|
            0 <= i < keys.len() && #[trigger] keys[i]@.id == id,
    decreases keys.len(),
{
    if keys.len() > 0 {
        let rest = keys.drop_last();
        lemma_latest_keys_by_id_domain(rest, id);
        if latest_keys_by_id(keys).contains_key(id) && keys.last()@.id != id {
            let i = choose|i: int| 0 <= i < rest.len() && #[trigger] rest[i]@.id == id;
            assert(keys[i]@.id == id);
        }
        if exists|i: int| 0 <= i < keys.len() && #[trigger] keys[i]@.id == id {
            let i = choose|i: int| 0 <= i < keys.len() && #[trigger] keys[i]@.id == id;
            if i < keys.len() - 1 {
                assert(rest[i]@.id == id);
            }
        }
    }
}

/// The key filed under an identifier is the last one in the list with that
/// identifier.
pub proof fn lemma_latest_keys_by_id_keeps_last(keys: Seq<TotpKey>, i: int)
    requires
        0 <= i < keys.len(),
        forall|j: int| i < j < keys.len() ==> #[trigger] keys[j]@.id != keys[i]@.id,
    ensures
        latest_keys_by_id(keys).contains_key(keys[i]@.id),
        latest_keys_by_id(keys)[keys[i]@.id] == keys[i],
    decreases keys.len(),
{
    if i < keys.len() - 1 {
        let rest = keys.drop_last();
        assert forall|j: int| i < j < rest.len() implies #[trigger] rest[j]@.id != rest[i]@.id by {
            assert(rest[j] == keys[j]);
        }
        lemma_latest_keys_by_id_keeps_last(rest, i);
        assert(keys.last()@.id != keys[i]@.id) by {
            assert(keys.last() == keys[keys.len() - 1]);
        }
    }
}

/// Every card of the map is filed under its key's identifier.
pub open spec fn keys_filed_by_id(m: Map<u128, TotpCard>) -> bool {
    forall|id: u128| #[trigger] m.contains_key(id) ==> m[id].key@.id == id
}

proof fn lemma_filed_insert(m: Map<u128, TotpCard>, id: u128, card: TotpCard)
    requires
        keys_filed_by_id(m),
        card.key@.id == id,
    ensures
        keys_filed_by_id(m.insert(id, card)),
{
    assert forall|k: u128| #[trigger] m.insert(id, card).contains_key(k) implies m.insert(
        id,
        card,
    )[k].key@.id == k by {
        if k != id {
            assert(m.contains_key(k));
        }
    }
}

proof fn lemma_filed_remove(m: Map<u128, TotpCard>, id: u128)
    requires
        keys_filed_by_id(m),
    ensures
        keys_filed_by_id(m.remove(id)),
{
    assert forall|k: u128| #[trigger] m.remove(id).contains_key(k) implies m.remove(
        id,
    )[k].key@.id == k by {
        assert(m.contains_key(k));
    }
}

impl TotpScreen {
    pub closed spec fn cards(&self) -> Map<u128, TotpCard> {
        self.keys@
    }

    /// Seconds since the last refresh of the codes.
    pub closed spec fn elapsed(&self) -> u8 {
        self.timer
    }

    pub closed spec fn form(&self) -> NewTotpForm {
        self.new_totp_form
    }

    pub closed spec fn form_opened(&self) -> bool {
        self.new_totp_form_opened
    }

    /// Every card is filed under its key's identifier, and the countdown is
    /// within one refresh period.
    pub open spec fn wf(&self) -> bool {
        &&& keys_filed_by_id(self.cards())
        &&& self.elapsed() < REFRESH_PERIOD
    }

    /// The messages that `update` handles: those naming a card that exists,
    /// and a submit of fields on which creating the key does not stop the
    /// program (see `TotpKey::new`).
    pub open spec fn handles(&self, msg: Message) -> bool {
        match msg {
            Message::TotpCardMessage(id, _) => self.cards().contains_key(id),
            Message::NewTotpFormMessage(m) => match m {
                crate::forms::new_totp_form::Message::Submit => !self.form().creation_fails(),
                _ => true,
            },
            _ => true,
        }
    }

    /// The codes are those of `old` at the next second: the countdown
    /// advances, and when it reaches the period it restarts and every card
    /// shows its key's code at `now`.
    pub open spec fn ticked(self, old: TotpScreen, now: u64) -> bool {
        &&& self.elapsed() == (old.elapsed() + 1) % (REFRESH_PERIOD as int)
        &&& self.form() == old.form()
        &&& self.form_opened() == old.form_opened()
        &&& if old.elapsed() + 1 < REFRESH_PERIOD {
            self.cards() == old.cards()
        } else {
            &&& self.cards().dom() == old.cards().dom()
            &&& forall|k: u128| #[trigger]
                self.cards().contains_key(k) ==> self.cards()[k].key == old.cards()[k].key
                    && self.cards()[k].current_code@ == code_at(old.cards()[k].key@.secret, now)
        }
    }

    /// The page showing the given keys with their codes at `now` (a UNIX
    /// time in seconds), the countdown started where the current period
    /// stands, and the form closed.
    pub fn new(keys: Vec<TotpKey>, now: u64) -> (res: Self)
        ensures
            res.wf(),
            res.elapsed() == now % (REFRESH_PERIOD as u64),
            res.cards().dom() == latest_keys_by_id(keys@).dom(),
            forall|id: u128| #[trigger]
                res.cards().contains_key(id) ==> res.cards()[id].key == latest_keys_by_id(keys@)[id]
                    && res.cards()[id].current_code@ == code_at(res.cards()[id].key@.secret, now),
            res.form().is_blank(),
            !res.form_opened(),
    {
        let offset = now % (REFRESH_PERIOD as u64);
        let ghost all = keys@;
        let mut cards: HashMap<u128, TotpCard> = HashMap::new();
        let mut rest = keys;
        let ghost mut taken: Seq<TotpKey> = Seq::empty();
        while rest.len() > 0
            invariant
                all == taken + rest@,
                cards@.dom() == latest_keys_by_id(taken).dom(),
                forall|id: u128| #[trigger]
                    cards@.contains_key(id) ==> cards@[id].key == latest_keys_by_id(taken)[id]
                        && cards@[id].current_code@ == code_at(cards@[id].key@.secret, now)
                        && cards@[id].key@.id == id,
            decreases rest.len(),
        {
            let key = rest.remove(0);
            let id = key.id();
            let ghost before = taken;
            proof {
                assert(all[before.len() as int] == key);
            }
            cards.insert(id, TotpCard::new(key, now));
            proof {
                assert(latest_keys_by_id(before.push(key)) == latest_keys_by_id(before).insert(
                    key@.id,
                    key,
                )) by {
                    assert(before.push(key).drop_last() =~= before);
                }
                taken = taken.push(key);
                assert(all =~= taken + rest@);
            }
        }
        proof {
            assert(taken =~= all);
        }
        TotpScreen {
            keys: cards,
            timer: offset as u8,
            new_totp_form: NewTotpForm::default(),
            new_totp_form_opened: false,
        }
    }
}


impl TotpScreen {
    /// Whether `update` handles a message (see `handles`).
    pub fn can_handle(&self, msg: &Message) -> (ok: bool)
        ensures
            ok == self.handles(*msg),
    {
        match msg {
            Message::TotpCardMessage(id, _) => self.keys.contains_key(id),
            Message::NewTotpFormMessage(m) => match m {
                crate::forms::new_totp_form::Message::Submit => !TotpKey::creation_fails(
                    self.new_totp_form.site_name.as_str(),
                    self.new_totp_form.login.as_str(),
                    self.new_totp_form.secret.as_str(),
                ),
                _ => true,
            },
            _ => true,
        }
    }

    /// How `update` changes the page and what it hands back, for each
    /// message.
    pub open spec fn updated(self, old: TotpScreen, msg: Message, cmd: Command) -> bool {
        match msg {
            Message::OpenNewTotp => {
                &&& self.cards() == old.cards()
                &&& self.elapsed() == old.elapsed()
                &&& self.form() == old.form()
                &&& self.form_opened()
                &&& cmd is Nothing
            },
            Message::Tick(now) => self.ticked(old, now) && cmd is Nothing,
            Message::NewTotpFormMessage(m) => match m {
                crate::forms::new_totp_form::Message::Submit => self.submitted(
                    old,
                    cmd,
                ),
                crate::forms::new_totp_form::Message::Cancel => {
                    &&& self.cards() == old.cards()
                    &&& self.elapsed() == old.elapsed()
                    &&& self.form() == old.form()
                    &&& !self.form_opened()
                    &&& cmd is Nothing
                },
                _ => {
                    &&& self.cards() == old.cards()
                    &&& self.elapsed() == old.elapsed()
                    &&& self.form() == old.form().after_input(m)
                    &&& self.form_opened() == old.form_opened()
                    &&& cmd is Nothing
                },
            },
            Message::TotpCardMessage(id, _) => {
                &&& self.cards() == old.cards().remove(id)
                &&& self.elapsed() == old.elapsed()
                &&& self.form() == old.form()
                &&& self.form_opened() == old.form_opened()
                &&& cmd matches Command::DeleteKey(k) && k == old.cards()[id].key
            },
        }
    }

    /// Handles a message of the page. A save or a delete is handed back to
    /// the caller as a `Command`.
    pub fn update(&mut self, msg: Message) -> (cmd: Command)
        requires
            old(self).wf(),
            old(self).handles(msg),
        ensures
            final(self).wf(),
            final(self).updated(*old(self), msg, cmd),
    {
        match msg {
            Message::OpenNewTotp => {
                self.new_totp_form_opened = true;
                Command::Nothing
            },
            Message::NewTotpFormMessage(msg) => match msg {
                crate::forms::new_totp_form::Message::Submit => self.handle_form_submit(),
                crate::forms::new_totp_form::Message::Cancel => {
                    self.new_totp_form_opened = false;
                    Command::Nothing
                },
                _ => {
                    self.new_totp_form.update(msg);
                    Command::Nothing
                },
            },
            Message::Tick(now) => {
                self.handle_tick(now);
                Command::Nothing
            },
            Message::TotpCardMessage(id, msg) => match msg {
                totp_card::Message::Delete => {
                    let card = self.keys.remove(&id).unwrap();
                    proof {
                        lemma_filed_remove(old(self).cards(), id);
                    }
                    Command::DeleteKey(card.key)
                },
            },
        }
    }

    /// What a submit of the form does: the form is emptied, and either the
    /// new key is handed back to be stored or the form shows why the fields
    /// were refused.
    pub open spec fn submitted(self, old: TotpScreen, cmd: Command) -> bool {
        let f = old.form();
        let err = totp_fields_error(f.site_name@, f.login@, f.secret@);
        &&& self.cards() == old.cards()
        &&& self.elapsed() == old.elapsed()
        &&& self.form_opened() == old.form_opened()
        &&& match err {
            None => self.form().is_blank(),
            Some(e) => self.form().is_cleared_with(Some(validation_message(e))),
        }
        &&& match cmd {
            Command::SaveNewKey(k) => is_new_key_result(Ok(k), f.site_name@, f.login@, f.secret@),
            Command::Nothing => err is Some,
            _ => false,
        }
    }

    fn handle_form_submit(&mut self) -> (cmd: Command)
        requires
            old(self).wf(),
            !old(self).form().creation_fails(),
        ensures
            final(self).wf(),
            final(self).submitted(*old(self), cmd),
    {
        let res = self.new_totp_form.create_totp();
        match res {
            Ok(key) => Command::SaveNewKey(key),
            Err(err) => {
                self.handle_validation_error(err);
                Command::Nothing
            },
        }
    }

    /// What reporting the outcome of storing a new key does: when it was
    /// stored, it gets a card showing its code at `now` and the form closes;
    /// otherwise the form says that the site name and login are taken.
    pub open spec fn finished_create(
        self,
        old: TotpScreen,
        key: TotpKey,
        saved: Result<(), TotpSaveError>,
        now: u64,
    ) -> bool {
        &&& self.elapsed() == old.elapsed()
        &&& if saved is Ok {
            &&& self.cards().dom() == old.cards().dom().insert(key@.id)
            &&& self.cards()[key@.id].key == key
            &&& self.cards()[key@.id].current_code@ == code_at(key@.secret, now)
            &&& forall|k: u128| #[trigger]
                self.cards().contains_key(k) && k != key@.id ==> self.cards()[k] == old.cards()[k]
            &&& !self.form_opened()
            &&& self.form() == old.form()
        } else {
            &&& self.cards() == old.cards()
            &&& self.form_opened() == old.form_opened()
            &&& self.form() == (NewTotpForm { error: Some(DUPLICATE_KEY_MESSAGE), ..old.form() })
        }
    }

    /// Reports the outcome of storing a new key, at the UNIX time `now`.
    pub fn finish_create(&mut self, key: TotpKey, saved: Result<(), TotpSaveError>, now: u64)
        requires
            old(self).wf(),
        ensures
            final(self).wf(),
            final(self).finished_create(*old(self), key, saved, now),
    {
        match saved {
            Ok(_) => {
                let id = key.id();
                let card = TotpCard::new(key, now);
                proof {
                    lemma_filed_insert(self.cards(), id, card);
                }
                self.keys.insert(id, card);
                self.new_totp_form_opened = false;
            },
            Err(_) => self.new_totp_form.error = Some(DUPLICATE_KEY_MESSAGE),
        }
    }

    fn handle_validation_error(&mut self, err: TotpValidationError)
        ensures
            final(self).cards() == old(self).cards(),
            final(self).elapsed() == old(self).elapsed(),
            final(self).form_opened() == old(self).form_opened(),
            final(self).form() == (NewTotpForm {
                error: Some(validation_message(err)),
                ..old(self).form()
            }),
    {
        match err {
            TotpValidationError::EmptySiteName => {
                self.new_totp_form.error = Some(EMPTY_SITE_NAME_MESSAGE)
            },
            TotpValidationError::EmptyLogin => self.new_totp_form.error = Some(EMPTY_LOGIN_MESSAGE),
            TotpValidationError::BadSecret => self.new_totp_form.error = Some(BAD_SECRET_MESSAGE),
        }
    }

    /// Advances the countdown by a second; at the end of a period every card
    /// gets its key's code at `now` and the countdown restarts.
    fn handle_tick(&mut self, now: u64)
        requires
            old(self).wf(),
        ensures
            final(self).wf(),
            final(self).ticked(*old(self), now),
    {
        self.timer = self.timer + 1;
        if self.timer == REFRESH_PERIOD {
            self.refresh_codes(now);
            self.timer = 0;
        }
    }

    /// Sets every card's code to its key's code at `now`.
    fn refresh_codes(&mut self, now: u64)
        requires
            keys_filed_by_id(old(self).cards()),
        ensures
            keys_filed_by_id(final(self).cards()),
            final(self).elapsed() == old(self).elapsed(),
            final(self).form() == old(self).form(),
            final(self).form_opened() == old(self).form_opened(),
            final(self).cards().dom() == old(self).cards().dom(),
            forall|k: u128| #[trigger]
                final(self).cards().contains_key(k) ==> final(self).cards()[k].key == old(
                    self,
                ).cards()[k].key && final(self).cards()[k].current_code@ == code_at(
                    old(self).cards()[k].key@.secret,
                    now,
                ),
    {
        let ghost start = self.keys@;
        let mut ids: Vec<u128> = Vec::new();
        for id in it: self.keys.keys()
            invariant
                start == self.keys@,
                it.seq().len() == start.dom().len(),
                it.seq().no_duplicates(),
                it.seq().unref().to_set() == start.dom(),
                ids@.len() == it.index(),
                forall|j: int| 0 <= j < it.index() ==> ids@[j] == *it.seq()[j],
                ids@.len() <= start.dom().len(),
                ids@.no_duplicates(),
                forall|j: int| 0 <= j < ids@.len() ==> start.contains_key(#[trigger] ids@[j]),
        {
            proof {
                assert(it.seq().unref()[it.index()] == *id);
                assert(it.seq().unref().to_set().contains(*id));
            }
            ids.push(*id);
        }
        assert(ids@.len() == start.dom().len());
        proof {
            ids@.unique_seq_to_set();
            assert(ids@.to_set().subset_of(start.dom()));
            vstd::set_lib::lemma_subset_equality(ids@.to_set(), start.dom());
        }
        assert(ids@.to_set() == start.dom());
        let mut i: usize = 0;
        while i < ids.len()
            invariant
                ids@.to_set() == start.dom(),
                0 <= i <= ids@.len(),
                start == old(self).keys@,
                keys_filed_by_id(self.keys@),
                self.keys@.dom() == start.dom(),
                self.timer == old(self).timer,
                self.new_totp_form == old(self).new_totp_form,
                self.new_totp_form_opened == old(self).new_totp_form_opened,
                forall|k: u128| #[trigger]
                    self.keys@.contains_key(k) ==> self.keys@[k].key == start[k].key && (ids@.take(
                        i as int,
                    ).contains(k) ==> self.keys@[k].current_code@ == code_at(
                        start[k].key@.secret,
                        now,
                    )),
            decreases ids.len() - i,
        {
            let id = ids[i];
            proof {
                assert(ids@.to_set().contains(ids@[i as int]));
            }
            let ghost before = self.keys@;
            let mut card = self.keys.remove(&id).unwrap();
            card.current_code = card.key.gen_key(now);
            proof {
                lemma_filed_remove(before, id);
                lemma_filed_insert(self.keys@, id, card);
            }
            self.keys.insert(id, card);
            proof {
                assert(ids@.take(i + 1) =~= ids@.take(i as int).push(id));
            }
            i = i + 1;
        }
        proof {
            assert(ids@.take(ids@.len() as int) =~= ids@);
        }
    }

    /// The cards, by key identifier.
    pub fn keys(&self) -> (cards: &HashMap<u128, TotpCard>)
        ensures
            cards@ == self.cards(),
    {
        &self.keys
    }

    /// Seconds since the last refresh of the codes.
    pub fn timer(&self) -> (t: u8)
        ensures
            t == self.elapsed(),
    {
        self.timer
    }

    pub fn new_totp_form(&self) -> (form: &NewTotpForm)
        ensures
            *form == self.form(),
    {
        &self.new_totp_form
    }

    pub fn new_totp_form_opened(&self) -> (opened: bool)
        ensures
            opened == self.form_opened(),
    {
        self.new_totp_form_opened
    }
}

/// Deleting the card of a key that was just created and stored gives back
/// the cards as they were before, and hands back that key.
pub proof fn lemma_delete_undoes_create(
    s0: TotpScreen,
    s1: TotpScreen,
    s2: TotpScreen,
    key: TotpKey,
    now: u64,
    cmd: Command,
)
    requires
        !s0.cards().contains_key(key@.id),
        s1.finished_create(s0, key, Ok(()), now),
        s2.updated(s1, Message::TotpCardMessage(key@.id, totp_card::Message::Delete), cmd),
    ensures
        s2.cards() == s0.cards(),
        cmd == Command::DeleteKey(key),
{
    assert(s2.cards() =~= s0.cards());
}

/// Each tick advances the countdown by one second, modulo the refresh
/// period, so it never reaches the period; the set of keys stays the same;
/// when the countdown wraps every card shows its key's code at the tick's
/// time, and otherwise no card changes.
pub proof fn lemma_tick_advances_countdown(s0: TotpScreen, s1: TotpScreen, now: u64, cmd: Command)
    requires
        s0.wf(),
        s1.updated(s0, Message::Tick(now), cmd),
    ensures
        s1.elapsed() == (s0.elapsed() + 1) % (REFRESH_PERIOD as int),
        s1.elapsed() < REFRESH_PERIOD,
        s1.cards().dom() == s0.cards().dom(),
        s0.elapsed() + 1 < REFRESH_PERIOD ==> s1.cards() == s0.cards(),
        s0.elapsed() + 1 == REFRESH_PERIOD ==> forall|k: u128| #[trigger]
            s1.cards().contains_key(k) ==> s1.cards()[k].key == s0.cards()[k].key
                && s1.cards()[k].current_code@ == code_at(s0.cards()[k].key@.secret, now),
        cmd is Nothing,
{
}

/// With one tick per second, the countdown follows the clock: if it stood
/// at the previous second's place in the 30-second step, it stands at the
/// current one's after the tick, and the codes are refreshed exactly when a
/// new step begins, to the codes of that step.
pub proof fn lemma_ticks_follow_clock(s0: TotpScreen, s1: TotpScreen, now: u64, cmd: Command)
    requires
        s0.wf(),
        now > 0,
        s0.elapsed() == (now - 1) % 30,
        s1.updated(s0, Message::Tick(now), cmd),
    ensures
        s1.elapsed() == now % 30,
        now % 30 != 0 ==> s1.cards() == s0.cards(),
        now % 30 == 0 ==> forall|k: u128| #[trigger]
            s1.cards().contains_key(k) ==> s1.cards()[k].key == s0.cards()[k].key
                && s1.cards()[k].current_code@ == code_at(s1.cards()[k].key@.secret, now),
{
}

/// Submitting the form with a site name, a login and a base32 secret asks
/// to store a new key holding exactly those two fields and the decoded
/// secret, and empties the form; the cards do not change until the caller
/// reports the save.
pub proof fn lemma_valid_form_saves_new_key(s1: TotpScreen, s2: TotpScreen, cmd: Command)
    requires
        s1.form().site_name@.len() > 0,
        s1.form().login@.len() > 0,
        is_base32_text(s1.form().secret@),
        s2.updated(
            s1,
            Message::NewTotpFormMessage(crate::forms::new_totp_form::Message::Submit),
            cmd,
        ),
    ensures
        cmd matches Command::SaveNewKey(k) && k@.site_name == s1.form().site_name@ && k@.login
            == s1.form().login@ && k@.secret == base32_decoded(s1.form().secret@),
        s2.cards() == s1.cards(),
        s2.form().is_blank(),
{
}

/// Submitting the form with an empty site name or login, or a secret that
/// is not base32, stores nothing and shows why.
pub proof fn lemma_invalid_form_saves_nothing(s1: TotpScreen, s2: TotpScreen, cmd: Command)
    requires
        s1.form().site_name@.len() == 0 || s1.form().login@.len() == 0 || !is_base32_text(
            s1.form().secret@,
        ),
        s2.updated(
            s1,
            Message::NewTotpFormMessage(crate::forms::new_totp_form::Message::Submit),
            cmd,
        ),
    ensures
        cmd is Nothing,
        s2.cards() == s1.cards(),
        s1.form().site_name@.len() == 0 ==> s2.form().error == Some(EMPTY_SITE_NAME_MESSAGE),
        s1.form().site_name@.len() > 0 && s1.form().login@.len() == 0 ==> s2.form().error == Some(
            EMPTY_LOGIN_MESSAGE,
        ),
        s1.form().site_name@.len() > 0 && s1.form().login@.len() > 0 ==> s2.form().error == Some(
            BAD_SECRET_MESSAGE,
        ),
{
}

} // verus!
