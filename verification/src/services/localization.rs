//! The templates that the user replaces to match a localized game client.

use vstd::prelude::*;

verus! {

/// The user's replacement templates, each a base64-encoded image.
#[derive(Clone, Debug, PartialEq, Eq)]
pub struct Localization {
    pub cash_shop_base: Option<String>,
    pub change_channel_base: Option<String>,
    pub timer_base: Option<String>,
    pub popup_confirm_base: Option<String>,
    pub popup_yes_base: Option<String>,
    pub popup_next_base: Option<String>,
    pub popup_end_chat_base: Option<String>,
    pub popup_ok_new_base: Option<String>,
    pub popup_ok_old_base: Option<String>,
    pub popup_cancel_new_base: Option<String>,
    pub popup_cancel_old_base: Option<String>,
    pub familiar_level_button_base: Option<String>,
    pub familiar_save_button_base: Option<String>,
    pub hexa_erda_conversion_button_base: Option<String>,
    pub hexa_booster_button_base: Option<String>,
    pub hexa_max_button_base: Option<String>,
    pub hexa_convert_button_base: Option<String>,
    pub lie_detector_new_base: Option<String>,
    pub lie_detector_old_base: Option<String>,
}

impl Default for Localization {
    fn default() -> (l: Self)
        ensures
            l.cash_shop_base is None,
            l.change_channel_base is None,
            l.timer_base is None,
            l.popup_confirm_base is None,
            l.popup_yes_base is None,
            l.popup_next_base is None,
            l.popup_end_chat_base is None,
            l.popup_ok_new_base is None,
            l.popup_ok_old_base is None,
            l.popup_cancel_new_base is None,
            l.popup_cancel_old_base is None,
            l.familiar_level_button_base is None,
            l.familiar_save_button_base is None,
            l.hexa_erda_conversion_button_base is None,
            l.hexa_booster_button_base is None,
            l.hexa_max_button_base is None,
            l.hexa_convert_button_base is None,
            l.lie_detector_new_base is None,
            l.lie_detector_old_base is None,
    {
        Localization {
            cash_shop_base: None,
            change_channel_base: None,
            timer_base: None,
            popup_confirm_base: None,
            popup_yes_base: None,
            popup_next_base: None,
            popup_end_chat_base: None,
            popup_ok_new_base: None,
            popup_ok_old_base: None,
            popup_cancel_new_base: None,
            popup_cancel_old_base: None,
            familiar_level_button_base: None,
            familiar_save_button_base: None,
            hexa_erda_conversion_button_base: None,
            hexa_booster_button_base: None,
            hexa_max_button_base: None,
            hexa_convert_button_base: None,
            lie_detector_new_base: None,
            lie_detector_old_base: None,
        }
    }
}

/// A template of the game's user interface.
#[derive(Clone, Copy, Debug, PartialEq, Eq, Structural)]
pub enum GameTemplate {
    CashShop,
    ChangeChannel,
    Timer,
    PopupConfirm,
    PopupYes,
    PopupNext,
    PopupEndChat,
    PopupOkNew,
    PopupOkOld,
    PopupCancelNew,
    PopupCancelOld,
    FamiliarsLevelSort,
    FamiliarsSaveButton,
    HexaErdaConversionButton,
    HexaBoosterButton,
    HexaMaxButton,
    HexaConvertButton,
}

/// Handles localization-related requests.
pub trait LocalizationService {
    /// Replaces the localization in use.
    fn update_localization(&mut self, localization: Localization);
}

/// The localization service of the bot.
#[derive(Debug)]
pub struct DefaultLocalizationService {
    localization: Localization,
}

impl DefaultLocalizationService {
    /// The localization in use.
    pub closed spec fn current(&self) -> Localization {
        self.localization
    }

    /// A service using `localization`.
    pub fn new(localization: Localization) -> (s: Self)
        ensures
            s.current() == localization,
    {
        DefaultLocalizationService { localization }
    }

    /// The localization in use.
    pub fn localization(&self) -> (r: &Localization)
        ensures
            *r == self.current(),
    {
        &self.localization
    }
}

impl LocalizationService for DefaultLocalizationService {
    fn update_localization(&mut self, localization: Localization)
        ensures
            final(self).current() == localization,
    {
        self.localization = localization;
    }
}

} // verus!
