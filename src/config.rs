use vstd::prelude::*;

verus! {

/// Most buttons that an activity can show.
pub const MAX_BUTTONS: usize = 2;

/// The text of a button: its label and the address it opens.
pub struct ButtonView {
    pub label: Seq<char>,
    pub url: Seq<char>,
}

/// A labelled link shown under the status.
#[derive(Debug, Clone)]
pub struct Button {
    pub label: String,
    pub url: String,
}

impl View for Button {
    type V = ButtonView;

    open spec fn view(&self) -> ButtonView {
        ButtonView { label: self.label@, url: self.url@ }
    }
}

/// The views of a list of buttons.
pub open spec fn button_views(buttons: Seq<Button>) -> Seq<ButtonView> {
    buttons.map_values(|b: Button| b@)
}

/// The record that the driver hands to the client: who it is and what to show.
#[derive(Debug, Clone)]
pub struct Config {
    pub name: String,
    pub description: String,
    pub client_id: String,
    pub details: String,
    pub state: String,
    pub large_image: String,
    pub large_text: String,
    pub small_image: String,
    pub small_text: String,
    pub party_size: i32,
    pub max_party_size: i32,
    pub buttons: Option<Vec<Button>>,
    pub start_timestamp: Option<i64>,
    pub end_timestamp: Option<i64>,
    pub party_max: Option<i32>,
    pub match_secret: Option<String>,
    pub join_secret: Option<String>,
    pub spectate_secret: Option<String>,
    pub instance: Option<bool>,
}

impl Default for Config {
    fn default() -> (r: Self)
        ensures
            r.name@.len() == 0,
            r.description@.len() == 0,
            r.client_id@.len() == 0,
            r.details@.len() == 0,
            r.state@.len() == 0,
            r.large_image@.len() == 0,
            r.large_text@.len() == 0,
            r.small_image@.len() == 0,
            r.small_text@.len() == 0,
            r.party_size == 0,
            r.max_party_size == 0,
            r.buttons is None,
            r.start_timestamp is None,
            r.end_timestamp is None,
            r.party_max is None,
            r.match_secret is None,
            r.join_secret is None,
            r.spectate_secret is None,
            r.instance is None,
    {
        Config {
            name: String::new(),
            description: String::new(),
            client_id: String::new(),
            details: String::new(),
            state: String::new(),
            large_image: String::new(),
            large_text: String::new(),
            small_image: String::new(),
            small_text: String::new(),
            party_size: 0,
            max_party_size: 0,
            buttons: None,
            start_timestamp: None,
            end_timestamp: None,
            party_max: None,
            match_secret: None,
            join_secret: None,
            spectate_secret: None,
            instance: None,
        }
    }
}

/// The buttons that remain when at most `MAX_BUTTONS` are kept.
pub open spec fn capped_buttons(buttons: Seq<Button>) -> Seq<Button> {
    if buttons.len() > MAX_BUTTONS {
        buttons.take(MAX_BUTTONS as int)
    } else {
        buttons
    }
}

impl Config {
    /// Drops every button after the first `MAX_BUTTONS`; nothing else changes.
    pub fn limit_buttons(&mut self)
        ensures
            old(self).buttons is None ==> final(self).buttons is None,
            old(self).buttons is Some ==> {
                &&& final(self).buttons is Some
                &&& final(self).buttons->0@ == capped_buttons(old(self).buttons->0@)
            },
            *final(self) == (Config { buttons: final(self).buttons, ..*old(self) }),
    {
        match &mut self.buttons {
            Some(buttons) => {
                if buttons.len() > MAX_BUTTONS {
                    buttons.truncate(MAX_BUTTONS);
                }
            },
            None => {},
        }
    }
}

} // verus!
