use vstd::prelude::*;

use crate::clock::{
    dmy_text, format_dmy, known_zone, parsed_date, usable_instant, zone_local_time, Instant, Zone,
};
use crate::text::{lemma_pad2_len, lemma_pad4_len};

verus! {

/// What the bot knows of a user once the first dialogue is over.
#[derive(Clone, PartialEq, Eq, Debug)]
pub struct UserSettings {
    pub chat_id: i64,
    pub timezone: String,
    pub style_path: String,
    pub language: String,
}

pub struct UserSettingsView {
    pub chat_id: i64,
    pub timezone: Seq<char>,
    pub style_path: Seq<char>,
    pub language: Seq<char>,
}

impl View for UserSettings {
    type V = UserSettingsView;

    open spec fn view(&self) -> UserSettingsView {
        UserSettingsView {
            chat_id: self.chat_id,
            timezone: self.timezone@,
            style_path: self.style_path@,
            language: self.language@,
        }
    }
}

/// Where a chat stands in the dialogue, with what has been collected so far.
#[derive(Clone, PartialEq, Eq, Debug)]
pub enum State {
    Start,
    RecieveLanguage,
    RecieveStyle { language: String },
    RecieveLocation { language: String, style_path: String },
    WaitForTask { user_settings: UserSettings },
    CreateReminder { user_settings: UserSettings },
    RecieveReminderDate { user_settings: UserSettings, exact_date: bool },
    RecieveReminderTime { user_settings: UserSettings, date: String },
    RecieveReminderTheme { user_settings: UserSettings, date: String, time: String },
    ReminderFinalPolish {
        user_settings: UserSettings,
        date: String,
        time: String,
        what_to_remind: String,
    },
    EditReminderDate {
        user_settings: UserSettings,
        time: String,
        what_to_remind: String,
        exact_date: bool,
    },
    EditReminderTime { user_settings: UserSettings, date: String, what_to_remind: String },
    EditReminderTheme { user_settings: UserSettings, date: String, time: String },
}

pub enum StateView {
    Start,
    RecieveLanguage,
    RecieveStyle { language: Seq<char> },
    RecieveLocation { language: Seq<char>, style_path: Seq<char> },
    WaitForTask { user_settings: UserSettingsView },
    CreateReminder { user_settings: UserSettingsView },
    RecieveReminderDate { user_settings: UserSettingsView, exact_date: bool },
    RecieveReminderTime { user_settings: UserSettingsView, date: Seq<char> },
    RecieveReminderTheme { user_settings: UserSettingsView, date: Seq<char>, time: Seq<char> },
    ReminderFinalPolish {
        user_settings: UserSettingsView,
        date: Seq<char>,
        time: Seq<char>,
        what_to_remind: Seq<char>,
    },
    EditReminderDate {
        user_settings: UserSettingsView,
        time: Seq<char>,
        what_to_remind: Seq<char>,
        exact_date: bool,
    },
    EditReminderTime { user_settings: UserSettingsView, date: Seq<char>, what_to_remind: Seq<char> },
    EditReminderTheme { user_settings: UserSettingsView, date: Seq<char>, time: Seq<char> },
}

impl View for State {
    type V = StateView;

    open spec fn view(&self) -> StateView {
        match self {
            State::Start => StateView::Start,
            State::RecieveLanguage => StateView::RecieveLanguage,
            State::RecieveStyle { language } => StateView::RecieveStyle { language: language@ },
            State::RecieveLocation { language, style_path } => StateView::RecieveLocation {
                language: language@,
                style_path: style_path@,
            },
            State::WaitForTask { user_settings } => StateView::WaitForTask {
                user_settings: user_settings@,
            },
            State::CreateReminder { user_settings } => StateView::CreateReminder {
                user_settings: user_settings@,
            },
            State::RecieveReminderDate { user_settings, exact_date } =>
                StateView::RecieveReminderDate { user_settings: user_settings@, exact_date: *exact_date },
            State::RecieveReminderTime { user_settings, date } => StateView::RecieveReminderTime {
                user_settings: user_settings@,
                date: date@,
            },
            State::RecieveReminderTheme { user_settings, date, time } =>
                StateView::RecieveReminderTheme {
                    user_settings: user_settings@,
                    date: date@,
                    time: time@,
                },
            State::ReminderFinalPolish { user_settings, date, time, what_to_remind } =>
                StateView::ReminderFinalPolish {
                    user_settings: user_settings@,
                    date: date@,
                    time: time@,
                    what_to_remind: what_to_remind@,
                },
            State::EditReminderDate { user_settings, time, what_to_remind, exact_date } =>
                StateView::EditReminderDate {
                    user_settings: user_settings@,
                    time: time@,
                    what_to_remind: what_to_remind@,
                    exact_date: *exact_date,
                },
            State::EditReminderTime { user_settings, date, what_to_remind } =>
                StateView::EditReminderTime {
                    user_settings: user_settings@,
                    date: date@,
                    what_to_remind: what_to_remind@,
                },
            State::EditReminderTheme { user_settings, date, time } =>
                StateView::EditReminderTheme {
                    user_settings: user_settings@,
                    date: date@,
                    time: time@,
                },
        }
    }
}

impl Default for State {
    fn default() -> (res: State)
        ensures
            res@ == StateView::Start,
    {
        State::Start
    }
}

/// The settings carried by the states of creating or editing a reminder.
pub open spec fn reminder_settings(s: StateView) -> Option<UserSettingsView> {
    match s {
        StateView::CreateReminder { user_settings } => Some(user_settings),
        StateView::RecieveReminderDate { user_settings, .. } => Some(user_settings),
        StateView::RecieveReminderTheme { user_settings, .. } => Some(user_settings),
        StateView::RecieveReminderTime { user_settings, .. } => Some(user_settings),
        StateView::ReminderFinalPolish { user_settings, .. } => Some(user_settings),
        StateView::EditReminderDate { user_settings, .. } => Some(user_settings),
        StateView::EditReminderTime { user_settings, .. } => Some(user_settings),
        StateView::EditReminderTheme { user_settings, .. } => Some(user_settings),
        _ => None,
    }
}

impl State {
    /// The user's settings, when the state belongs to creating or editing a reminder.
    pub fn user_settings(&self) -> (res: Option<&UserSettings>)
        ensures
            match res {
                Some(u) => reminder_settings(self@) == Some(u@),
                None => reminder_settings(self@) is None,
            },
    {
        match self {
            State::CreateReminder { user_settings } => Some(user_settings),
            State::RecieveReminderDate { user_settings, .. } => Some(user_settings),
            State::RecieveReminderTheme { user_settings, .. } => Some(user_settings),
            State::RecieveReminderTime { user_settings, .. } => Some(user_settings),
            State::ReminderFinalPolish { user_settings, .. } => Some(user_settings),
            State::EditReminderDate { user_settings, .. } => Some(user_settings),
            State::EditReminderTime { user_settings, .. } => Some(user_settings),
            State::EditReminderTheme { user_settings, .. } => Some(user_settings),
            _ => None,
        }
    }
}

impl UserSettings {
    /// A copy of these settings.
    pub fn duplicate(&self) -> (res: UserSettings)
        ensures
            res@ == self@,
    {
        UserSettings {
            chat_id: self.chat_id,
            timezone: self.timezone.clone(),
            style_path: self.style_path.clone(),
            language: self.language.clone(),
        }
    }

    /// The user's time zone. The settings must name a zone that the tz database knows.
    pub fn get_tz(&self) -> (res: Zone)
        requires
            known_zone(self.timezone@),
        ensures
            res@ == self.timezone@,
    {
        Zone::parse(self.timezone.as_str()).unwrap()
    }

    /// The date on the user's wall clock at the moment `now`, as day.month.year: ten characters
    /// that read back as that date, when its year has four digits.
    pub fn get_current_day(&self, now: Instant) -> (res: String)
        requires
            known_zone(self.timezone@),
            usable_instant(now),
        ensures
            res@ == dmy_text(zone_local_time(self.timezone@, now.secs as int, now.nanos as int).date),
            ({
                let d = zone_local_time(self.timezone@, now.secs as int, now.nanos as int).date;
                0 <= d.year <= 9999 ==> res@.len() == 10 && parsed_date(res@) == Some(d)
            }),
    {
        let local = self.get_tz().local_at(now);
        let day = format_dmy(&local.date);
        proof {
            if 0 <= local.date.year <= 9999 {
                lemma_pad2_len(local.date.day as nat);
                lemma_pad2_len(local.date.month as nat);
                lemma_pad4_len(local.date.year as nat);
            }
        }
        day
    }
}

}
