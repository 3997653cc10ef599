//! Application state: the session, authentication and synchronisation
//! containers, and the state of the driver's screen. Each change answers
//! what the caller must store and which part of the screen to redraw.

use vstd::prelude::*;
use std::collections::HashSet;
use crate::models::package::Package;
use crate::models::session::Address;
use crate::state::auth_state::AuthState;
use crate::state::session_state::SessionState;
use crate::state::sync_state::SyncStateWrapper;
use crate::views::package_list::PackageGroup;

verus! {

/// A modal of the driver's screen.
#[derive(Clone, Copy, Debug, PartialEq, Eq, Structural)]
pub enum ModalType {
    Settings,
    Scanner,
    Details,
    Tracking,
}

/// A part of the screen that can be redrawn on its own.
#[derive(Clone, Copy, Debug, PartialEq, Eq, Structural)]
pub enum IncrementalUpdate {
    /// The bottom sheet (its classes and the map's height).
    BottomSheet,
    /// The selected package's card.
    PackageSelection,
    /// The visibility of a modal.
    Modal(ModalType),
    /// The header's buttons.
    Header,
    /// The package list.
    PackageList,
    /// The synchronisation indicator.
    SyncIndicator,
    /// The packages drawn on the map.
    MapPackages,
}

/// How the screen is brought up to date after a change.
#[derive(Clone, Copy, Debug, PartialEq, Eq, Structural)]
pub enum UpdateType {
    /// Redraw one part.
    Incremental(IncrementalUpdate),
    /// Redraw everything (login, logout, change of session).
    FullRender,
}

/// A preference to store under `key`.
pub struct PreferenceWrite {
    pub key: String,
    pub value: String,
}

/// The stored form of a boolean preference.
pub open spec fn bool_text(value: bool) -> Seq<char> {
    if value { "true"@ } else { "false"@ }
}

/// A stored boolean preference: `true` exactly when the stored text is
/// "true"; `default` when nothing is stored.
pub fn load_bool_pref(stored: Option<&str>, default: bool) -> (r: bool)
    ensures
        r == match stored {
            Some(v) => v@ == "true"@,
            None => default,
        },
{
    match stored {
        Some(v) => crate::utils::text::str_eq(v, "true"),
        None => default,
    }
}

/// A stored text preference, or `default` when nothing is stored.
pub fn load_string_pref(stored: Option<String>, default: String) -> (r: String)
    ensures
        r == match stored {
            Some(v) => v,
            None => default,
        },
{
    match stored {
        Some(v) => v,
        None => default,
    }
}

/// The write that stores a boolean preference.
pub fn bool_pref_write(key: &str, value: bool) -> (w: PreferenceWrite)
    ensures
        w.key@ == key@,
        w.value@ == bool_text(value),
{
    let text = if value { String::from_str("true") } else { String::from_str("false") };
    PreferenceWrite { key: String::from_str(key), value: text }
}

/// The state of the application.
pub struct AppState {
    pub session: SessionState,
    pub auth: AuthState,
    pub sync: SyncStateWrapper,
    pub selected_package_index: Option<usize>,
    pub map_enabled: bool,
    pub edit_mode: bool,
    pub filter_mode: bool,
    pub language: String,
    /// "collapsed", "half" or "full".
    pub sheet_state: String,
    /// The scroll offset of the package list, kept while a modal is open.
    pub package_list_scroll_position: Option<i32>,
    /// The package or group chosen as origin of a move in edit mode.
    pub edit_origin_idx: Option<usize>,
    pub expanded_groups: HashSet<usize>,
    /// The groups last computed, until the session or the filter changes.
    pub groups_memo: Option<Vec<PackageGroup>>,
    pub show_settings: bool,
    pub show_scanner: bool,
    pub show_details: bool,
    pub show_tracking_modal: bool,
    pub details_package: Option<(Package, Address)>,
    pub editing_address: bool,
    pub editing_door_code: bool,
    pub editing_driver_notes: bool,
    pub address_input_value: String,
    pub door_code_input_value: String,
    pub driver_notes_input_value: String,
    pub saving_address: bool,
    pub saving_door_code: bool,
    pub saving_mailbox: bool,
    pub saving_driver_notes: bool,
    pub edit_error_message: Option<String>,
}

impl AppState {
    /// No edit of the details modal is under way.
    pub open spec fn edit_states_reset(&self) -> bool {
        &&& !self.editing_address
        &&& !self.editing_door_code
        &&& !self.editing_driver_notes
        &&& self.address_input_value@ == Seq::<char>::empty()
        &&& self.door_code_input_value@ == Seq::<char>::empty()
        &&& self.driver_notes_input_value@ == Seq::<char>::empty()
        &&& !self.saving_address
        &&& !self.saving_door_code
        &&& !self.saving_mailbox
        &&& !self.saving_driver_notes
        &&& self.edit_error_message.is_none()
    }

    /// The fields that no edit-state operation touches are those of `other`.
    pub open spec fn same_screen(&self, other: &AppState) -> bool {
        &&& self.session == other.session
        &&& self.auth == other.auth
        &&& self.sync == other.sync
        &&& self.selected_package_index == other.selected_package_index
        &&& self.map_enabled == other.map_enabled
        &&& self.edit_mode == other.edit_mode
        &&& self.filter_mode == other.filter_mode
        &&& self.language == other.language
        &&& self.sheet_state == other.sheet_state
        &&& self.package_list_scroll_position == other.package_list_scroll_position
        &&& self.edit_origin_idx == other.edit_origin_idx
        &&& self.expanded_groups == other.expanded_groups
        &&& self.groups_memo == other.groups_memo
        &&& self.show_settings == other.show_settings
        &&& self.show_scanner == other.show_scanner
        &&& self.show_tracking_modal == other.show_tracking_modal
        &&& self.details_package == other.details_package
    }

    /// The initial state, with the stored map and language preferences
    /// (the map shown and French when none is stored).
    pub fn new(stored_map_enabled: Option<&str>, stored_language: Option<String>) -> (s: Self)
        ensures
            s.session.spec_is_empty(),
            s.map_enabled == match stored_map_enabled {
                Some(v) => v@ == "true"@,
                None => true,
            },
            s.language@ == match stored_language {
                Some(v) => v@,
                None => "FR"@,
            },
            s.sheet_state@ == "half"@,
            s.selected_package_index.is_none(),
            !s.edit_mode,
            !s.filter_mode,
            s.package_list_scroll_position.is_none(),
            s.edit_origin_idx.is_none(),
            s.expanded_groups@ == Set::<usize>::empty(),
            s.groups_memo.is_none(),
            !s.show_settings,
            !s.show_scanner,
            !s.show_details,
            !s.show_tracking_modal,
            s.details_package.is_none(),
            s.edit_states_reset(),
    {
        let map_enabled = load_bool_pref(stored_map_enabled, true);
        let language = load_string_pref(stored_language, String::from_str("FR"));
        AppState {
            session: SessionState::new(),
            auth: AuthState::new(),
            sync: SyncStateWrapper::new(),
            selected_package_index: None,
            map_enabled,
            edit_mode: false,
            filter_mode: false,
            language,
            sheet_state: String::from_str("half"),
            package_list_scroll_position: None,
            edit_origin_idx: None,
            expanded_groups: HashSet::new(),
            groups_memo: None,
            show_settings: false,
            show_scanner: false,
            show_details: false,
            show_tracking_modal: false,
            details_package: None,
            editing_address: false,
            editing_door_code: false,
            editing_driver_notes: false,
            address_input_value: String::new(),
            door_code_input_value: String::new(),
            driver_notes_input_value: String::new(),
            saving_address: false,
            saving_door_code: false,
            saving_mailbox: false,
            saving_driver_notes: false,
            edit_error_message: None,
        }
    }

    /// Shows or hides the map; answers the preference to store.
    pub fn set_map_enabled(&mut self, enabled: bool) -> (w: PreferenceWrite)
        ensures
            *final(self) == (AppState { map_enabled: enabled, ..*old(self) }),
            w.key@ == "map_enabled"@,
            w.value@ == bool_text(enabled),
    {
        self.map_enabled = enabled;
        let w = bool_pref_write("map_enabled", enabled);
        w
    }

    /// Changes the language; answers the preference to store.
    pub fn set_language(&mut self, lang: String) -> (w: PreferenceWrite)
        ensures
            *final(self) == (AppState { language: lang, ..*old(self) }),
            w.key@ == "language"@,
            w.value@ == lang@,
    {
        let value = lang.clone();
        self.language = lang;
        PreferenceWrite { key: String::from_str("language"), value }
    }

    /// The update that listeners get when they are told of a change
    /// without its kind: a full redraw.
    pub fn notify_subscribers(&self) -> (u: UpdateType)
        ensures
            u == UpdateType::FullRender,
    {
        UpdateType::FullRender
    }

    /// Moves the bottom sheet; answers the preference to store and the
    /// redraw of the sheet.
    pub fn set_sheet_state(&mut self, state: String) -> (r: (PreferenceWrite, UpdateType))
        ensures
            *final(self) == (AppState { sheet_state: state, ..*old(self) }),
            r.0.key@ == "sheet_state"@,
            r.0.value@ == state@,
            r.1 == UpdateType::Incremental(IncrementalUpdate::BottomSheet),
    {
        let value = state.clone();
        self.sheet_state = state;
        (PreferenceWrite { key: String::from_str("sheet_state"), value }, UpdateType::Incremental(IncrementalUpdate::BottomSheet))
    }

    /// Turns edit mode on or off; turning it off forgets the chosen origin.
    pub fn set_edit_mode(&mut self, enabled: bool)
        ensures
            *final(self) == (AppState {
                edit_mode: enabled,
                edit_origin_idx: if enabled { old(self).edit_origin_idx } else { None },
                ..*old(self)
            }),
    {
        self.edit_mode = enabled;
        if !enabled {
            self.edit_origin_idx = None;
        }
    }

    /// Turns the filter on or off, which drops the computed groups; answers
    /// the redraws: the list, and the map when a session is loaded.
    pub fn set_filter_mode(&mut self, enabled: bool) -> (updates: Vec<UpdateType>)
        ensures
            *final(self) == (AppState { filter_mode: enabled, groups_memo: None, ..*old(self) }),
            updates@ == if old(self).session.session.is_some() {
                seq![UpdateType::Incremental(IncrementalUpdate::PackageList), UpdateType::Incremental(IncrementalUpdate::MapPackages)]
            } else {
                seq![UpdateType::Incremental(IncrementalUpdate::PackageList)]
            },
    {
        self.filter_mode = enabled;
        self.groups_memo = None;
        let mut updates: Vec<UpdateType> = Vec::new();
        updates.push(UpdateType::Incremental(IncrementalUpdate::PackageList));
        if self.session.session.is_some() {
            updates.push(UpdateType::Incremental(IncrementalUpdate::MapPackages));
        }
        updates
    }

    /// Selects a package (or none); answers the redraw of the selection.
    pub fn set_selected_package_index(&mut self, index: Option<usize>) -> (u: UpdateType)
        ensures
            *final(self) == (AppState { selected_package_index: index, ..*old(self) }),
            u == UpdateType::Incremental(IncrementalUpdate::PackageSelection),
    {
        self.selected_package_index = index;
        UpdateType::Incremental(IncrementalUpdate::PackageSelection)
    }

    /// Drops the computed groups (the session changed).
    pub fn invalidate_groups_memo(&mut self)
        ensures
            *final(self) == (AppState { groups_memo: None, ..*old(self) }),
    {
        self.groups_memo = None;
    }

    /// Shows or hides the settings; answers the redraw of that modal.
    pub fn set_show_settings(&mut self, show: bool) -> (u: UpdateType)
        ensures
            *final(self) == (AppState { show_settings: show, ..*old(self) }),
            u == UpdateType::Incremental(IncrementalUpdate::Modal(ModalType::Settings)),
    {
        self.show_settings = show;
        UpdateType::Incremental(IncrementalUpdate::Modal(ModalType::Settings))
    }

    /// Shows or hides the scanner; answers the redraw of that modal.
    pub fn set_show_scanner(&mut self, show: bool) -> (u: UpdateType)
        ensures
            *final(self) == (AppState { show_scanner: show, ..*old(self) }),
            u == UpdateType::Incremental(IncrementalUpdate::Modal(ModalType::Scanner)),
    {
        self.show_scanner = show;
        UpdateType::Incremental(IncrementalUpdate::Modal(ModalType::Scanner))
    }

    /// Shows or hides the details; closing them ends any edit under way.
    /// Answers the redraw of that modal.
    pub fn set_show_details(&mut self, show: bool) -> (u: UpdateType)
        ensures
            final(self).show_details == show,
            final(self).same_screen(old(self)),
            show ==> *final(self) == (AppState { show_details: show, ..*old(self) }),
            !show ==> final(self).edit_states_reset(),
            u == UpdateType::Incremental(IncrementalUpdate::Modal(ModalType::Details)),
    {
        self.show_details = show;
        if !show {
            self.reset_edit_states();
        }
        UpdateType::Incremental(IncrementalUpdate::Modal(ModalType::Details))
    }

    /// Keeps the scroll offset of the package list, when the list is on
    /// screen (`scroll_top` is its offset then).
    pub fn save_package_list_scroll_position(&mut self, scroll_top: Option<i32>)
        ensures
            *final(self) == match scroll_top {
                Some(t) => AppState { package_list_scroll_position: Some(t), ..*old(self) },
                None => *old(self),
            },
    {
        match scroll_top {
            Some(t) => {
                self.package_list_scroll_position = Some(t);
            },
            None => {},
        }
    }

    /// The scroll offset to give the package list back, if one is kept;
    /// it is forgotten when `clear_after_restore`.
    pub fn restore_package_list_scroll_position(&mut self, clear_after_restore: bool) -> (r: Option<i32>)
        ensures
            r == old(self).package_list_scroll_position,
            *final(self) == if r.is_some() && clear_after_restore {
                AppState { package_list_scroll_position: None, ..*old(self) }
            } else {
                *old(self)
            },
    {
        let saved = self.package_list_scroll_position;
        if saved.is_some() && clear_after_restore {
            self.package_list_scroll_position = None;
        }
        saved
    }

    /// Ends any edit of the details modal.
    pub fn reset_edit_states(&mut self)
        ensures
            final(self).edit_states_reset(),
            final(self).same_screen(old(self)),
            final(self).show_details == old(self).show_details,
    {
        self.editing_address = false;
        self.editing_door_code = false;
        self.editing_driver_notes = false;
        self.address_input_value = String::new();
        self.door_code_input_value = String::new();
        self.driver_notes_input_value = String::new();
        self.saving_address = false;
        self.saving_door_code = false;
        self.saving_mailbox = false;
        self.saving_driver_notes = false;
        self.edit_error_message = None;
    }

    /// Fills the inputs of the details modal from `address`: its label,
    /// its door code and its notes (empty when absent).
    pub fn init_edit_states(&mut self, address: &Address)
        ensures
            *final(self) == (AppState {
                address_input_value: final(self).address_input_value,
                door_code_input_value: final(self).door_code_input_value,
                driver_notes_input_value: final(self).driver_notes_input_value,
                ..*old(self)
            }),
            final(self).address_input_value@ == address.label@,
            final(self).door_code_input_value@ == match address.door_code {
                Some(c) => c@,
                None => Seq::<char>::empty(),
            },
            final(self).driver_notes_input_value@ == match address.driver_notes {
                Some(n) => n@,
                None => Seq::<char>::empty(),
            },
    {
        let label = address.label.clone();
        let door_code = match &address.door_code {
            Some(c) => c.clone(),
            None => String::new(),
        };
        let notes = match &address.driver_notes {
            Some(n) => n.clone(),
            None => String::new(),
        };
        self.address_input_value = label;
        self.door_code_input_value = door_code;
        self.driver_notes_input_value = notes;
    }

    /// Shows or hides the tracking modal; answers the redraw of that modal.
    pub fn set_show_tracking_modal(&mut self, show: bool) -> (u: UpdateType)
        ensures
            *final(self) == (AppState { show_tracking_modal: show, ..*old(self) }),
            u == UpdateType::Incremental(IncrementalUpdate::Modal(ModalType::Tracking)),
    {
        self.show_tracking_modal = show;
        UpdateType::Incremental(IncrementalUpdate::Modal(ModalType::Tracking))
    }
}

/// A boolean preference is stored as `true` or `false`, and reads back as
/// the value stored.
pub proof fn law_bool_preference(value: bool)
    ensures
        bool_text(true) == "true"@,
        bool_text(false) == "false"@,
        (bool_text(value) == "true"@) == value,
{
    reveal_strlit("true");
    reveal_strlit("false");
    assert("true"@.len() != "false"@.len());
}

} // verus!
