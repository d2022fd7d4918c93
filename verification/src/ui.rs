//! The state of the tool's window, and how it answers to the user.
//!
//! The window itself, its dialogs and the files are the caller's. `update`
//! says what to show or ask next; the caller does it and reports back through
//! the other methods.

use crate::decoder::{load_spec, seen_not_base64, seen_not_gzip, Decoder, DecoderOutputResult};
use crate::encoder::{store_spec, Encoder, EncoderOutputResult};
use crate::error::{fails_with, ErrorKind, PipelineError};
use std::path::PathBuf;
use vstd::prelude::*;

verus! {

/// What the user did.
#[derive(Debug, Clone)]
pub enum Message {
    Reset,
    ThemeChanged(bool),
    InterceptFileChanged(bool),
    DecodeButtonPressed,
    EncodeButtonPressed,
    DecodeOutputButtonPressed,
    EncodeOutputButtonPressed,
}

/// The colours of the window.
#[derive(Clone, Copy, Debug, PartialEq, Eq, Structural)]
pub enum AppTheme {
    Light,
    Dark,
}

impl Default for AppTheme {
    fn default() -> (theme: Self)
        ensures
            theme == AppTheme::Dark,
    {
        AppTheme::Dark
    }
}

impl AppTheme {
    /// The theme for a position of the theme switch: dark when it is on.
    pub fn from_toggle(value: bool) -> (theme: Self)
        ensures
            theme == if value {
                AppTheme::Dark
            } else {
                AppTheme::Light
            },
    {
        if value {
            AppTheme::Dark
        } else {
            AppTheme::Light
        }
    }

    /// The name shown beside the theme switch.
    pub fn name(&self) -> (name: &'static str)
        ensures
            name@ == match *self {
                AppTheme::Dark => "Dark"@,
                AppTheme::Light => "Light"@,
            },
    {
        match self {
            AppTheme::Dark => "Dark",
            AppTheme::Light => "Light",
        }
    }
}

/// The page that the window shows.
#[derive(Clone, Copy, Debug, PartialEq, Eq, Structural)]
pub enum AppState {
    Home,
    DecodeHome,
    EncodeHome,
}

impl Default for AppState {
    fn default() -> (state: Self)
        ensures
            state == AppState::Home,
    {
        AppState::Home
    }
}

/// What the caller is to do after an `update`.
#[derive(Clone, Copy, Debug, PartialEq, Eq, Structural)]
pub enum Action {
    /// Nothing but to draw the window again.
    Nothing,
    /// Let the user pick a save file, read it, and call `decode_file_picked`.
    PickSaveFile,
    /// Let the user pick an XML file, read it, and call `encode_file_picked`.
    PickXmlFile,
    /// Ask where the decoded file goes, write what `Decoder::output` gives,
    /// and call `decode_output_finished`.
    SaveDecoded,
    /// Ask where the encoded file goes, write what `Encoder::output` gives,
    /// and call `encode_output_finished`.
    SaveEncoded,
}

/// The tool: its look, its page, and the two sides with their files.
pub struct App {
    pub theme: AppTheme,
    pub state: AppState,
    pub intercept_file: bool,
    pub decoder: Decoder,
    pub encoder: Encoder,
}

impl Default for App {
    fn default() -> (app: Self)
        ensures
            app.is_fresh(),
            app.is_consistent(),
            app.theme == AppTheme::Dark,
    {
        App {
            theme: AppTheme::Dark,
            state: AppState::Home,
            intercept_file: false,
            decoder: Decoder::new_no_file_selected(),
            encoder: Encoder::new_no_file_selected(),
        }
    }
}

/// What `update` asks of the caller for `message`.
pub open spec fn action_for(message: Message) -> Action {
    match message {
        Message::DecodeButtonPressed => Action::PickSaveFile,
        Message::EncodeButtonPressed => Action::PickXmlFile,
        Message::DecodeOutputButtonPressed => Action::SaveDecoded,
        Message::EncodeOutputButtonPressed => Action::SaveEncoded,
        _ => Action::Nothing,
    }
}

impl App {
    /// Whether the tool is on its home page with no file selected and the
    /// intercept switch off.
    pub open spec fn is_fresh(self) -> bool {
        &&& self.state == AppState::Home
        &&& !self.intercept_file
        &&& self.decoder.variant is NoFileSelected
        &&& self.encoder.variant is NoFileSelected
    }

    /// Whether the page that is shown has its file: the decode page a selected
    /// save file, the encode page a selected XML file. The tool starts so, and
    /// every method keeps it so.
    pub open spec fn is_consistent(self) -> bool {
        &&& self.state == AppState::DecodeHome ==> self.decoder.variant is FileSelected
        &&& self.state == AppState::EncodeHome ==> self.encoder.variant is FileSelected
    }

    /// The tool as it starts: dark, on its home page, no file selected.
    pub fn new() -> (app: Self)
        ensures
            app.is_fresh(),
            app.is_consistent(),
            app.theme == AppTheme::Dark,
    {
        App {
            theme: AppTheme::Dark,
            state: AppState::Home,
            intercept_file: false,
            decoder: Decoder::new_no_file_selected(),
            encoder: Encoder::new_no_file_selected(),
        }
    }

    /// The title of the window.
    pub fn title(&self) -> (title: String)
        ensures
            title@ == "Geometry Dash Save Explorer"@,
    {
        "Geometry Dash Save Explorer".to_owned()
    }

    /// Takes in what the user did and says what the caller is to do next.
    ///
    /// A reset brings the tool back to its fresh state and keeps the theme.
    /// The two switches set their field. The four buttons change nothing by
    /// themselves: the change comes when the caller reports back.
    pub fn update(&mut self, message: Message) -> (action: Action)
        ensures
            action == action_for(message),
            old(self).is_consistent() ==> final(self).is_consistent(),
            match message {
                Message::Reset => final(self).is_fresh() && final(self).theme == old(self).theme,
                Message::ThemeChanged(value) => *final(self) == (App {
                    theme: if value {
                        AppTheme::Dark
                    } else {
                        AppTheme::Light
                    },
                    ..*old(self)
                }),
                Message::InterceptFileChanged(value) => *final(self) == (App {
                    intercept_file: value,
                    ..*old(self)
                }),
                _ => *final(self) == *old(self),
            },
    {
        match message {
            Message::Reset => {
                self.state = AppState::Home;
                self.intercept_file = false;
                self.decoder = Decoder::new_no_file_selected();
                self.encoder = Encoder::new_no_file_selected();
                Action::Nothing
            },
            Message::ThemeChanged(value) => {
                self.theme = AppTheme::from_toggle(value);
                Action::Nothing
            },
            Message::InterceptFileChanged(value) => {
                self.intercept_file = value;
                Action::Nothing
            },
            Message::DecodeButtonPressed => Action::PickSaveFile,
            Message::EncodeButtonPressed => Action::PickXmlFile,
            Message::DecodeOutputButtonPressed => Action::SaveDecoded,
            Message::EncodeOutputButtonPressed => Action::SaveEncoded,
        }
    }

    /// The user picked the save file at `file_path`, of which `savedata` was
    /// read (`None` where it could not be read). Where it decodes, the decoder
    /// holds it and the decode page is shown; where not, nothing changes, and
    /// the failure is that of `Decoder::new_file_selected`.
    pub fn decode_file_picked(&mut self, file_path: PathBuf, savedata: Option<Vec<u8>>) -> (r:
        Result<(), PipelineError>)
        ensures
            old(self).is_consistent() ==> final(self).is_consistent(),
            final(self).theme == old(self).theme,
            final(self).intercept_file == old(self).intercept_file,
            final(self).encoder == old(self).encoder,
            match r {
                Ok(_) => final(self).state == AppState::DecodeHome && final(self).decoder.holds(
                    file_path,
                    savedata,
                ),
                Err(e) => *final(self) == *old(self) && load_spec(savedata) == Err::<
                    Seq<u8>,
                    ErrorKind,
                >(e.kind),
            },
            seen_not_base64(savedata) ==> fails_with(r, ErrorKind::InvalidEncoding),
            seen_not_gzip(savedata) ==> fails_with(r, ErrorKind::CorruptStream),
    {
        let decoder = Decoder::new_file_selected(file_path, savedata)?;
        self.decoder = decoder;
        self.state = AppState::DecodeHome;
        Ok(())
    }

    /// The user picked the XML file at `file_path`, of which `xmldata` was
    /// read (`None` where it could not be read). Where it encodes, the encoder
    /// holds it and the encode page is shown; where not, nothing changes.
    pub fn encode_file_picked(&mut self, file_path: PathBuf, xmldata: Option<Vec<u8>>) -> (r:
        Result<(), PipelineError>)
        ensures
            old(self).is_consistent() ==> final(self).is_consistent(),
            final(self).theme == old(self).theme,
            final(self).intercept_file == old(self).intercept_file,
            final(self).decoder == old(self).decoder,
            match r {
                Ok(_) => final(self).state == AppState::EncodeHome && final(self).encoder.holds(
                    file_path,
                    xmldata,
                ),
                Err(e) => *final(self) == *old(self) && store_spec(xmldata) == Err::<
                    Seq<u8>,
                    ErrorKind,
                >(e.kind),
            },
    {
        let encoder = Encoder::new_file_selected(file_path, xmldata)?;
        self.encoder = encoder;
        self.state = AppState::EncodeHome;
        Ok(())
    }

    /// The caller has dealt with a request to save the decoded file. Once the
    /// file is there the home page is shown again.
    pub fn decode_output_finished(&mut self, result: DecoderOutputResult)
        ensures
            old(self).is_consistent() ==> final(self).is_consistent(),
            *final(self) == (App {
                state: if result == DecoderOutputResult::FileCreated {
                    AppState::Home
                } else {
                    old(self).state
                },
                ..*old(self)
            }),
    {
        match result {
            DecoderOutputResult::FileCreated => {
                self.state = AppState::Home;
            },
            DecoderOutputResult::FileNotCreated => {},
        }
    }

    /// The caller has dealt with a request to save the encoded file. Once the
    /// file is there the home page is shown again.
    pub fn encode_output_finished(&mut self, result: EncoderOutputResult)
        ensures
            old(self).is_consistent() ==> final(self).is_consistent(),
            *final(self) == (App {
                state: if result == EncoderOutputResult::FileCreated {
                    AppState::Home
                } else {
                    old(self).state
                },
                ..*old(self)
            }),
    {
        match result {
            EncoderOutputResult::FileCreated => {
                self.state = AppState::Home;
            },
            EncoderOutputResult::FileNotCreated => {},
        }
    }
}

} // verus!
