//! The settings document: display and behaviour preferences kept as one
//! record, and the update of a single field named by its key.

use vstd::prelude::*;
use vstd::string::*;
use crate::text::str_eq;

verus! {

/// The settings document. Numeric display values are carried as the
/// IEEE-754 bit patterns of 64-bit floats; the library never does arithmetic
/// on them.
#[derive(Debug, PartialEq, Eq)]
pub struct Settings {
    pub notch_font_size: u64,
    pub notch_scroll_speed: u64,
    pub notch_width_percent: u64,
    pub notch_height: u64,
    pub notch_font_family: String,
    pub notch_opacity: u64,
    pub notch_glow_style: String,
    pub notch_position: String,
    pub notch_line_count: u32,
    pub notch_show_timer: bool,
    pub floating_font_size: u64,
    pub floating_scroll_speed: u64,
    pub floating_font_family: String,
    pub floating_theme: String,
    pub text_color_hex: String,
    pub mirror_mode: bool,
    pub countdown_seconds: u32,
    pub prompter_mode: String,
    pub show_menu_bar_icon: bool,
    pub appearance_mode: String,
    pub end_action: String,
    pub target_min_wpm: u64,
    pub target_max_wpm: u64,
    pub voice_scroll_enabled: bool,
    pub content_protected: bool,
}

/// What the settings document holds, as plain mathematical values.
pub struct SettingsView {
    pub notch_font_size: u64,
    pub notch_scroll_speed: u64,
    pub notch_width_percent: u64,
    pub notch_height: u64,
    pub notch_font_family: Seq<char>,
    pub notch_opacity: u64,
    pub notch_glow_style: Seq<char>,
    pub notch_position: Seq<char>,
    pub notch_line_count: u32,
    pub notch_show_timer: bool,
    pub floating_font_size: u64,
    pub floating_scroll_speed: u64,
    pub floating_font_family: Seq<char>,
    pub floating_theme: Seq<char>,
    pub text_color_hex: Seq<char>,
    pub mirror_mode: bool,
    pub countdown_seconds: u32,
    pub prompter_mode: Seq<char>,
    pub show_menu_bar_icon: bool,
    pub appearance_mode: Seq<char>,
    pub end_action: Seq<char>,
    pub target_min_wpm: u64,
    pub target_max_wpm: u64,
    pub voice_scroll_enabled: bool,
    pub content_protected: bool,
}

impl View for Settings {
    type V = SettingsView;

    open spec fn view(&self) -> SettingsView {
        SettingsView {
            notch_font_size: self.notch_font_size,
            notch_scroll_speed: self.notch_scroll_speed,
            notch_width_percent: self.notch_width_percent,
            notch_height: self.notch_height,
            notch_font_family: self.notch_font_family@,
            notch_opacity: self.notch_opacity,
            notch_glow_style: self.notch_glow_style@,
            notch_position: self.notch_position@,
            notch_line_count: self.notch_line_count,
            notch_show_timer: self.notch_show_timer,
            floating_font_size: self.floating_font_size,
            floating_scroll_speed: self.floating_scroll_speed,
            floating_font_family: self.floating_font_family@,
            floating_theme: self.floating_theme@,
            text_color_hex: self.text_color_hex@,
            mirror_mode: self.mirror_mode,
            countdown_seconds: self.countdown_seconds,
            prompter_mode: self.prompter_mode@,
            show_menu_bar_icon: self.show_menu_bar_icon,
            appearance_mode: self.appearance_mode@,
            end_action: self.end_action@,
            target_min_wpm: self.target_min_wpm,
            target_max_wpm: self.target_max_wpm,
            voice_scroll_enabled: self.voice_scroll_enabled,
            content_protected: self.content_protected,
        }
    }
}

/// The fields of the settings document.
#[derive(Debug, Clone, Copy, PartialEq, Eq, Structural)]
pub enum Field {
    NotchFontSize,
    NotchScrollSpeed,
    NotchWidthPercent,
    NotchHeight,
    NotchFontFamily,
    NotchOpacity,
    NotchGlowStyle,
    NotchPosition,
    NotchLineCount,
    NotchShowTimer,
    FloatingFontSize,
    FloatingScrollSpeed,
    FloatingFontFamily,
    FloatingTheme,
    TextColorHex,
    MirrorMode,
    CountdownSeconds,
    PrompterMode,
    ShowMenuBarIcon,
    AppearanceMode,
    EndAction,
    TargetMinWpm,
    TargetMaxWpm,
    VoiceScrollEnabled,
    ContentProtected,
}

/// The type of value a field holds.
#[derive(Debug, Clone, Copy, PartialEq, Eq, Structural)]
pub enum ValueKind {
    Float,
    Int,
    Bool,
    Text,
}

/// A value ready to be written to a field.
#[derive(Debug, PartialEq, Eq)]
pub enum SettingValue {
    /// The bit pattern of a 64-bit float.
    Float(u64),
    Int(u32),
    Bool(bool),
    Text(String),
}

/// A field value, as a plain mathematical value.
pub enum ValueView {
    Float(u64),
    Int(u32),
    Bool(bool),
    Text(Seq<char>),
}

impl View for SettingValue {
    type V = ValueView;

    open spec fn view(&self) -> ValueView {
        match self {
            SettingValue::Float(x) => ValueView::Float(*x),
            SettingValue::Int(x) => ValueView::Int(*x),
            SettingValue::Bool(x) => ValueView::Bool(*x),
            SettingValue::Text(x) => ValueView::Text(x@),
        }
    }
}

/// The kind of a value.
pub open spec fn kind_of_value(v: ValueView) -> ValueKind {
    match v {
        ValueView::Float(_) => ValueKind::Float,
        ValueView::Int(_) => ValueKind::Int,
        ValueView::Bool(_) => ValueKind::Bool,
        ValueView::Text(_) => ValueKind::Text,
    }
}

/// Why a keyed update was refused.
#[derive(Debug, Clone, Copy, PartialEq, Eq, Structural)]
pub enum SettingsError {
    /// The key names no field that can be set by key.
    UnknownKey,
    /// The value does not read as the field's type.
    InvalidValue,
}

/// The field that key `k` sets, if `k` is a recognised key.
pub open spec fn key_spec(k: Seq<char>) -> Option<Field> {
    if k == "notch_font_size"@ {
        Some(Field::NotchFontSize)
    } else if k == "notch_scroll_speed"@ {
        Some(Field::NotchScrollSpeed)
    } else if k == "notch_width_percent"@ {
        Some(Field::NotchWidthPercent)
    } else if k == "notch_height"@ {
        Some(Field::NotchHeight)
    } else if k == "notch_font_family"@ {
        Some(Field::NotchFontFamily)
    } else if k == "notch_opacity"@ {
        Some(Field::NotchOpacity)
    } else if k == "notch_glow_style"@ {
        Some(Field::NotchGlowStyle)
    } else if k == "notch_position"@ {
        Some(Field::NotchPosition)
    } else if k == "notch_line_count"@ {
        Some(Field::NotchLineCount)
    } else if k == "notch_show_timer"@ {
        Some(Field::NotchShowTimer)
    } else if k == "floating_font_size"@ {
        Some(Field::FloatingFontSize)
    } else if k == "floating_scroll_speed"@ {
        Some(Field::FloatingScrollSpeed)
    } else if k == "floating_font_family"@ {
        Some(Field::FloatingFontFamily)
    } else if k == "floating_theme"@ {
        Some(Field::FloatingTheme)
    } else if k == "text_color_hex"@ {
        Some(Field::TextColorHex)
    } else if k == "mirror_mode"@ {
        Some(Field::MirrorMode)
    } else if k == "countdown_seconds"@ {
        Some(Field::CountdownSeconds)
    } else if k == "prompter_mode"@ {
        Some(Field::PrompterMode)
    } else if k == "show_menu_bar_icon"@ {
        Some(Field::ShowMenuBarIcon)
    } else if k == "appearance_mode"@ {
        Some(Field::AppearanceMode)
    } else if k == "end_action"@ {
        Some(Field::EndAction)
    } else {
        None
    }
}

/// The type of value field `f` holds.
pub open spec fn kind_of(f: Field) -> ValueKind {
    match f {
        Field::NotchFontSize => ValueKind::Float,
        Field::NotchScrollSpeed => ValueKind::Float,
        Field::NotchWidthPercent => ValueKind::Float,
        Field::NotchHeight => ValueKind::Float,
        Field::NotchFontFamily => ValueKind::Text,
        Field::NotchOpacity => ValueKind::Float,
        Field::NotchGlowStyle => ValueKind::Text,
        Field::NotchPosition => ValueKind::Text,
        Field::NotchLineCount => ValueKind::Int,
        Field::NotchShowTimer => ValueKind::Bool,
        Field::FloatingFontSize => ValueKind::Float,
        Field::FloatingScrollSpeed => ValueKind::Float,
        Field::FloatingFontFamily => ValueKind::Text,
        Field::FloatingTheme => ValueKind::Text,
        Field::TextColorHex => ValueKind::Text,
        Field::MirrorMode => ValueKind::Bool,
        Field::CountdownSeconds => ValueKind::Int,
        Field::PrompterMode => ValueKind::Text,
        Field::ShowMenuBarIcon => ValueKind::Bool,
        Field::AppearanceMode => ValueKind::Text,
        Field::EndAction => ValueKind::Text,
        Field::TargetMinWpm => ValueKind::Float,
        Field::TargetMaxWpm => ValueKind::Float,
        Field::VoiceScrollEnabled => ValueKind::Bool,
        Field::ContentProtected => ValueKind::Bool,
    }
}

/// The value of field `f` in `doc`.
pub open spec fn field_value(doc: SettingsView, f: Field) -> ValueView {
    match f {
        Field::NotchFontSize => ValueView::Float(doc.notch_font_size),
        Field::NotchScrollSpeed => ValueView::Float(doc.notch_scroll_speed),
        Field::NotchWidthPercent => ValueView::Float(doc.notch_width_percent),
        Field::NotchHeight => ValueView::Float(doc.notch_height),
        Field::NotchFontFamily => ValueView::Text(doc.notch_font_family),
        Field::NotchOpacity => ValueView::Float(doc.notch_opacity),
        Field::NotchGlowStyle => ValueView::Text(doc.notch_glow_style),
        Field::NotchPosition => ValueView::Text(doc.notch_position),
        Field::NotchLineCount => ValueView::Int(doc.notch_line_count),
        Field::NotchShowTimer => ValueView::Bool(doc.notch_show_timer),
        Field::FloatingFontSize => ValueView::Float(doc.floating_font_size),
        Field::FloatingScrollSpeed => ValueView::Float(doc.floating_scroll_speed),
        Field::FloatingFontFamily => ValueView::Text(doc.floating_font_family),
        Field::FloatingTheme => ValueView::Text(doc.floating_theme),
        Field::TextColorHex => ValueView::Text(doc.text_color_hex),
        Field::MirrorMode => ValueView::Bool(doc.mirror_mode),
        Field::CountdownSeconds => ValueView::Int(doc.countdown_seconds),
        Field::PrompterMode => ValueView::Text(doc.prompter_mode),
        Field::ShowMenuBarIcon => ValueView::Bool(doc.show_menu_bar_icon),
        Field::AppearanceMode => ValueView::Text(doc.appearance_mode),
        Field::EndAction => ValueView::Text(doc.end_action),
        Field::TargetMinWpm => ValueView::Float(doc.target_min_wpm),
        Field::TargetMaxWpm => ValueView::Float(doc.target_max_wpm),
        Field::VoiceScrollEnabled => ValueView::Bool(doc.voice_scroll_enabled),
        Field::ContentProtected => ValueView::Bool(doc.content_protected),
    }
}

/// `doc` with field `f` set to `v`, a value of the field's kind.
pub open spec fn set_field(doc: SettingsView, f: Field, v: ValueView) -> SettingsView {
    match f {
        Field::NotchFontSize => SettingsView { notch_font_size: v->Float_0, ..doc },
        Field::NotchScrollSpeed => SettingsView { notch_scroll_speed: v->Float_0, ..doc },
        Field::NotchWidthPercent => SettingsView { notch_width_percent: v->Float_0, ..doc },
        Field::NotchHeight => SettingsView { notch_height: v->Float_0, ..doc },
        Field::NotchFontFamily => SettingsView { notch_font_family: v->Text_0, ..doc },
        Field::NotchOpacity => SettingsView { notch_opacity: v->Float_0, ..doc },
        Field::NotchGlowStyle => SettingsView { notch_glow_style: v->Text_0, ..doc },
        Field::NotchPosition => SettingsView { notch_position: v->Text_0, ..doc },
        Field::NotchLineCount => SettingsView { notch_line_count: v->Int_0, ..doc },
        Field::NotchShowTimer => SettingsView { notch_show_timer: v->Bool_0, ..doc },
        Field::FloatingFontSize => SettingsView { floating_font_size: v->Float_0, ..doc },
        Field::FloatingScrollSpeed => SettingsView { floating_scroll_speed: v->Float_0, ..doc },
        Field::FloatingFontFamily => SettingsView { floating_font_family: v->Text_0, ..doc },
        Field::FloatingTheme => SettingsView { floating_theme: v->Text_0, ..doc },
        Field::TextColorHex => SettingsView { text_color_hex: v->Text_0, ..doc },
        Field::MirrorMode => SettingsView { mirror_mode: v->Bool_0, ..doc },
        Field::CountdownSeconds => SettingsView { countdown_seconds: v->Int_0, ..doc },
        Field::PrompterMode => SettingsView { prompter_mode: v->Text_0, ..doc },
        Field::ShowMenuBarIcon => SettingsView { show_menu_bar_icon: v->Bool_0, ..doc },
        Field::AppearanceMode => SettingsView { appearance_mode: v->Text_0, ..doc },
        Field::EndAction => SettingsView { end_action: v->Text_0, ..doc },
        Field::TargetMinWpm => SettingsView { target_min_wpm: v->Float_0, ..doc },
        Field::TargetMaxWpm => SettingsView { target_max_wpm: v->Float_0, ..doc },
        Field::VoiceScrollEnabled => SettingsView { voice_scroll_enabled: v->Bool_0, ..doc },
        Field::ContentProtected => SettingsView { content_protected: v->Bool_0, ..doc },
    }
}

/// The document every installation starts from.
pub open spec fn default_view() -> SettingsView {
    SettingsView {
        notch_font_size: 0x4034000000000000,
        notch_scroll_speed: 0x4049000000000000,
        notch_width_percent: 0x404b800000000000,
        notch_height: 0x4059000000000000,
        notch_font_family: "System"@,
        notch_opacity: 0x3fed70a3d70a3d71,
        notch_glow_style: "rainbow"@,
        notch_position: "top"@,
        notch_line_count: 2,
        notch_show_timer: true,
        floating_font_size: 0x4040000000000000,
        floating_scroll_speed: 0x4049000000000000,
        floating_font_family: "System"@,
        floating_theme: "dark"@,
        text_color_hex: "#FFFFFF"@,
        mirror_mode: false,
        countdown_seconds: 3,
        prompter_mode: "notch"@,
        show_menu_bar_icon: true,
        appearance_mode: "dark"@,
        end_action: "stop"@,
        target_min_wpm: 0x4060400000000000,
        target_max_wpm: 0x4065400000000000,
        voice_scroll_enabled: false,
        content_protected: false,
    }
}

/// The field that `key` sets, if it is a recognised key.
pub fn lookup_key(key: &str) -> (r: Option<Field>)
    ensures
        r == key_spec(key@),
{
    if str_eq(key, "notch_font_size") {
        Some(Field::NotchFontSize)
    } else if str_eq(key, "notch_scroll_speed") {
        Some(Field::NotchScrollSpeed)
    } else if str_eq(key, "notch_width_percent") {
        Some(Field::NotchWidthPercent)
    } else if str_eq(key, "notch_height") {
        Some(Field::NotchHeight)
    } else if str_eq(key, "notch_font_family") {
        Some(Field::NotchFontFamily)
    } else if str_eq(key, "notch_opacity") {
        Some(Field::NotchOpacity)
    } else if str_eq(key, "notch_glow_style") {
        Some(Field::NotchGlowStyle)
    } else if str_eq(key, "notch_position") {
        Some(Field::NotchPosition)
    } else if str_eq(key, "notch_line_count") {
        Some(Field::NotchLineCount)
    } else if str_eq(key, "notch_show_timer") {
        Some(Field::NotchShowTimer)
    } else if str_eq(key, "floating_font_size") {
        Some(Field::FloatingFontSize)
    } else if str_eq(key, "floating_scroll_speed") {
        Some(Field::FloatingScrollSpeed)
    } else if str_eq(key, "floating_font_family") {
        Some(Field::FloatingFontFamily)
    } else if str_eq(key, "floating_theme") {
        Some(Field::FloatingTheme)
    } else if str_eq(key, "text_color_hex") {
        Some(Field::TextColorHex)
    } else if str_eq(key, "mirror_mode") {
        Some(Field::MirrorMode)
    } else if str_eq(key, "countdown_seconds") {
        Some(Field::CountdownSeconds)
    } else if str_eq(key, "prompter_mode") {
        Some(Field::PrompterMode)
    } else if str_eq(key, "show_menu_bar_icon") {
        Some(Field::ShowMenuBarIcon)
    } else if str_eq(key, "appearance_mode") {
        Some(Field::AppearanceMode)
    } else if str_eq(key, "end_action") {
        Some(Field::EndAction)
    } else {
        None
    }
}

/// The type of value field `f` holds.
pub fn field_kind(f: Field) -> (r: ValueKind)
    ensures
        r == kind_of(f),
{
    match f {
        Field::NotchFontSize => ValueKind::Float,
        Field::NotchScrollSpeed => ValueKind::Float,
        Field::NotchWidthPercent => ValueKind::Float,
        Field::NotchHeight => ValueKind::Float,
        Field::NotchFontFamily => ValueKind::Text,
        Field::NotchOpacity => ValueKind::Float,
        Field::NotchGlowStyle => ValueKind::Text,
        Field::NotchPosition => ValueKind::Text,
        Field::NotchLineCount => ValueKind::Int,
        Field::NotchShowTimer => ValueKind::Bool,
        Field::FloatingFontSize => ValueKind::Float,
        Field::FloatingScrollSpeed => ValueKind::Float,
        Field::FloatingFontFamily => ValueKind::Text,
        Field::FloatingTheme => ValueKind::Text,
        Field::TextColorHex => ValueKind::Text,
        Field::MirrorMode => ValueKind::Bool,
        Field::CountdownSeconds => ValueKind::Int,
        Field::PrompterMode => ValueKind::Text,
        Field::ShowMenuBarIcon => ValueKind::Bool,
        Field::AppearanceMode => ValueKind::Text,
        Field::EndAction => ValueKind::Text,
        Field::TargetMinWpm => ValueKind::Float,
        Field::TargetMaxWpm => ValueKind::Float,
        Field::VoiceScrollEnabled => ValueKind::Bool,
        Field::ContentProtected => ValueKind::Bool,
    }
}

impl Default for Settings {
    /// The document every installation starts from.
    fn default() -> (r: Settings)
        ensures
            r@ == default_view(),
    {
        Settings {
            notch_font_size: 0x4034000000000000, // 20
            notch_scroll_speed: 0x4049000000000000, // 50
            notch_width_percent: 0x404b800000000000, // 55
            notch_height: 0x4059000000000000, // 100
            notch_font_family: String::from_str("System"),
            notch_opacity: 0x3fed70a3d70a3d71, // 92 hundredths
            notch_glow_style: String::from_str("rainbow"),
            notch_position: String::from_str("top"),
            notch_line_count: 2,
            notch_show_timer: true,
            floating_font_size: 0x4040000000000000, // 32
            floating_scroll_speed: 0x4049000000000000, // 50
            floating_font_family: String::from_str("System"),
            floating_theme: String::from_str("dark"),
            text_color_hex: String::from_str("#FFFFFF"),
            mirror_mode: false,
            countdown_seconds: 3,
            prompter_mode: String::from_str("notch"),
            show_menu_bar_icon: true,
            appearance_mode: String::from_str("dark"),
            end_action: String::from_str("stop"),
            target_min_wpm: 0x4060400000000000, // 130
            target_max_wpm: 0x4065400000000000, // 170
            voice_scroll_enabled: false,
            content_protected: false,
        }
    }
}

impl Settings {
    /// An independent copy of the document.
    pub fn snapshot(&self) -> (r: Settings)
        ensures
            r@ == self@,
    {
        Settings {
            notch_font_size: self.notch_font_size,
            notch_scroll_speed: self.notch_scroll_speed,
            notch_width_percent: self.notch_width_percent,
            notch_height: self.notch_height,
            notch_font_family: self.notch_font_family.clone(),
            notch_opacity: self.notch_opacity,
            notch_glow_style: self.notch_glow_style.clone(),
            notch_position: self.notch_position.clone(),
            notch_line_count: self.notch_line_count,
            notch_show_timer: self.notch_show_timer,
            floating_font_size: self.floating_font_size,
            floating_scroll_speed: self.floating_scroll_speed,
            floating_font_family: self.floating_font_family.clone(),
            floating_theme: self.floating_theme.clone(),
            text_color_hex: self.text_color_hex.clone(),
            mirror_mode: self.mirror_mode,
            countdown_seconds: self.countdown_seconds,
            prompter_mode: self.prompter_mode.clone(),
            show_menu_bar_icon: self.show_menu_bar_icon,
            appearance_mode: self.appearance_mode.clone(),
            end_action: self.end_action.clone(),
            target_min_wpm: self.target_min_wpm,
            target_max_wpm: self.target_max_wpm,
            voice_scroll_enabled: self.voice_scroll_enabled,
            content_protected: self.content_protected,
        }
    }

    /// The value of field `f`.
    pub fn get(&self, f: Field) -> (r: SettingValue)
        ensures
            r@ == field_value(self@, f),
    {
        match f {
            Field::NotchFontSize => SettingValue::Float(self.notch_font_size),
            Field::NotchScrollSpeed => SettingValue::Float(self.notch_scroll_speed),
            Field::NotchWidthPercent => SettingValue::Float(self.notch_width_percent),
            Field::NotchHeight => SettingValue::Float(self.notch_height),
            Field::NotchFontFamily => SettingValue::Text(self.notch_font_family.clone()),
            Field::NotchOpacity => SettingValue::Float(self.notch_opacity),
            Field::NotchGlowStyle => SettingValue::Text(self.notch_glow_style.clone()),
            Field::NotchPosition => SettingValue::Text(self.notch_position.clone()),
            Field::NotchLineCount => SettingValue::Int(self.notch_line_count),
            Field::NotchShowTimer => SettingValue::Bool(self.notch_show_timer),
            Field::FloatingFontSize => SettingValue::Float(self.floating_font_size),
            Field::FloatingScrollSpeed => SettingValue::Float(self.floating_scroll_speed),
            Field::FloatingFontFamily => SettingValue::Text(self.floating_font_family.clone()),
            Field::FloatingTheme => SettingValue::Text(self.floating_theme.clone()),
            Field::TextColorHex => SettingValue::Text(self.text_color_hex.clone()),
            Field::MirrorMode => SettingValue::Bool(self.mirror_mode),
            Field::CountdownSeconds => SettingValue::Int(self.countdown_seconds),
            Field::PrompterMode => SettingValue::Text(self.prompter_mode.clone()),
            Field::ShowMenuBarIcon => SettingValue::Bool(self.show_menu_bar_icon),
            Field::AppearanceMode => SettingValue::Text(self.appearance_mode.clone()),
            Field::EndAction => SettingValue::Text(self.end_action.clone()),
            Field::TargetMinWpm => SettingValue::Float(self.target_min_wpm),
            Field::TargetMaxWpm => SettingValue::Float(self.target_max_wpm),
            Field::VoiceScrollEnabled => SettingValue::Bool(self.voice_scroll_enabled),
            Field::ContentProtected => SettingValue::Bool(self.content_protected),
        }
    }

    /// Sets field `f` to `v`, a value of the field's kind.
    pub fn set(&mut self, f: Field, v: SettingValue)
        requires
            kind_of_value(v@) == kind_of(f),
        ensures
            final(self)@ == set_field(old(self)@, f, v@),
    {
        match (f, v) {
            (Field::NotchFontSize, SettingValue::Float(x)) => self.notch_font_size = x,
            (Field::NotchScrollSpeed, SettingValue::Float(x)) => self.notch_scroll_speed = x,
            (Field::NotchWidthPercent, SettingValue::Float(x)) => self.notch_width_percent = x,
            (Field::NotchHeight, SettingValue::Float(x)) => self.notch_height = x,
            (Field::NotchFontFamily, SettingValue::Text(x)) => self.notch_font_family = x,
            (Field::NotchOpacity, SettingValue::Float(x)) => self.notch_opacity = x,
            (Field::NotchGlowStyle, SettingValue::Text(x)) => self.notch_glow_style = x,
            (Field::NotchPosition, SettingValue::Text(x)) => self.notch_position = x,
            (Field::NotchLineCount, SettingValue::Int(x)) => self.notch_line_count = x,
            (Field::NotchShowTimer, SettingValue::Bool(x)) => self.notch_show_timer = x,
            (Field::FloatingFontSize, SettingValue::Float(x)) => self.floating_font_size = x,
            (Field::FloatingScrollSpeed, SettingValue::Float(x)) => self.floating_scroll_speed = x,
            (Field::FloatingFontFamily, SettingValue::Text(x)) => self.floating_font_family = x,
            (Field::FloatingTheme, SettingValue::Text(x)) => self.floating_theme = x,
            (Field::TextColorHex, SettingValue::Text(x)) => self.text_color_hex = x,
            (Field::MirrorMode, SettingValue::Bool(x)) => self.mirror_mode = x,
            (Field::CountdownSeconds, SettingValue::Int(x)) => self.countdown_seconds = x,
            (Field::PrompterMode, SettingValue::Text(x)) => self.prompter_mode = x,
            (Field::ShowMenuBarIcon, SettingValue::Bool(x)) => self.show_menu_bar_icon = x,
            (Field::AppearanceMode, SettingValue::Text(x)) => self.appearance_mode = x,
            (Field::EndAction, SettingValue::Text(x)) => self.end_action = x,
            (Field::TargetMinWpm, SettingValue::Float(x)) => self.target_min_wpm = x,
            (Field::TargetMaxWpm, SettingValue::Float(x)) => self.target_max_wpm = x,
            (Field::VoiceScrollEnabled, SettingValue::Bool(x)) => self.voice_scroll_enabled = x,
            (Field::ContentProtected, SettingValue::Bool(x)) => self.content_protected = x,
            _ => {},
        }
    }
}

/// Whether `c` is a decimal digit.
pub open spec fn is_digit(c: char) -> bool {
    '0' <= c && c <= '9'
}

/// The number that the decimal digits `d` write.
pub open spec fn digits_value(d: Seq<char>) -> nat
    decreases d.len(),
{
    if d.len() == 0 {
        0
    } else {
        digits_value(d.drop_last()) * 10 + ((d.last() as int) - ('0' as int)) as nat
    }
}

/// `s` without one leading plus sign.
pub open spec fn unsigned_digits(s: Seq<char>) -> Seq<char> {
    if s.len() > 0 && s[0] == '+' {
        s.drop_first()
    } else {
        s
    }
}

/// `s` read as an unsigned 32-bit integer: an optional plus sign, then one
/// or more decimal digits whose value fits.
pub open spec fn parse_u32_spec(s: Seq<char>) -> Option<u32> {
    let d = unsigned_digits(s);
    if d.len() > 0 && (forall|i: int| 0 <= i < d.len() ==> is_digit(#[trigger] d[i])) && digits_value(d)
        <= u32::MAX {
        Some(digits_value(d) as u32)
    } else {
        None
    }
}

/// `s` read as a boolean: exactly `true` or `false`.
pub open spec fn parse_bool_spec(s: Seq<char>) -> Option<bool> {
    if s == "true"@ {
        Some(true)
    } else if s == "false"@ {
        Some(false)
    } else {
        None
    }
}

/// `value` read as a value of `kind`. A float is read by the caller, who
/// hands over `float_bits`: the bit pattern of the 64-bit float that `value`
/// denotes, or `None` when it denotes none.
pub open spec fn parse_spec(kind: ValueKind, value: Seq<char>, float_bits: Option<u64>) -> Option<
    ValueView,
> {
    match kind {
        ValueKind::Float => match float_bits {
            Some(b) => Some(ValueView::Float(b)),
            None => None,
        },
        ValueKind::Int => match parse_u32_spec(value) {
            Some(n) => Some(ValueView::Int(n)),
            None => None,
        },
        ValueKind::Bool => match parse_bool_spec(value) {
            Some(b) => Some(ValueView::Bool(b)),
            None => None,
        },
        ValueKind::Text => Some(ValueView::Text(value)),
    }
}

/// A longer run of digits is worth at least as much as its beginning.
proof fn lemma_digits_grow(d: Seq<char>, i: int)
    requires
        0 <= i <= d.len(),
        forall|j: int| 0 <= j < d.len() ==> is_digit(#[trigger] d[j]),
    ensures
        digits_value(d) >= digits_value(d.take(i)),
    decreases d.len(),
{
    if i < d.len() {
        let e = d.drop_last();
        assert forall|j: int| 0 <= j < e.len() implies is_digit(#[trigger] e[j]) by {
            assert(e[j] == d[j]);
        }
        lemma_digits_grow(e, i);
        assert(e.take(i) =~= d.take(i));
    } else {
        assert(d.take(i) =~= d);
    }
}

/// `s` read as a boolean, as `str::parse::<bool>` reads it.
pub fn parse_bool(s: &str) -> (r: Option<bool>)
    ensures
        r == parse_bool_spec(s@),
{
    if str_eq(s, "true") {
        Some(true)
    } else if str_eq(s, "false") {
        Some(false)
    } else {
        None
    }
}

/// `s` read as an unsigned 32-bit integer, as `str::parse::<u32>` reads it.
pub fn parse_u32(s: &str) -> (r: Option<u32>)
    ensures
        r == parse_u32_spec(s@),
{
    let n = s.unicode_len();
    let mut i: usize = 0;
    if n > 0 && s.get_char(0) == '+' {
        i = 1;
    }
    let start = i;
    let ghost d = s@.subrange(start as int, n as int);
    assert(d =~= unsigned_digits(s@));
    if start == n {
        return None;
    }
    let mut acc: u64 = 0;
    while i < n
        invariant
            n == s@.len(),
            start <= i <= n,
            d == s@.subrange(start as int, n as int),
            d == unsigned_digits(s@),
            d.len() > 0,
            acc == digits_value(d.take(i - start)),
            acc <= u32::MAX,
            forall|j: int| 0 <= j < i - start ==> is_digit(#[trigger] d[j]),
        decreases n - i,
    {
        let c = s.get_char(i);
        assert(c == d[i - start]);
        if !('0' <= c && c <= '9') {
            assert(!is_digit(d[i - start]));
            return None;
        }
        let ghost k = i - start;
        proof {
            assert(d.take(k + 1).drop_last() =~= d.take(k));
            assert(d.take(k + 1).last() == c);
            assert(digits_value(d.take(k + 1)) == digits_value(d.take(k)) * 10 + ((c as int) - ('0' as int)) as nat);
        }
        acc = acc * 10 + (c as u64 - '0' as u64);
        assert(acc == digits_value(d.take(k + 1)));
        if acc > u32::MAX as u64 {
            proof {
                if forall|j: int| 0 <= j < d.len() ==> is_digit(#[trigger] d[j]) {
                    lemma_digits_grow(d, i - start + 1);
                }
            }
            return None;
        }
        i = i + 1;
    }
    assert(d.take(d.len() as int) =~= d);
    Some(acc as u32)
}

/// `value` read as a value of `kind`; `float_bits` is as for `parse_spec`.
pub fn parse_value(kind: ValueKind, value: String, float_bits: Option<u64>) -> (r: Option<SettingValue>)
    ensures
        match parse_spec(kind, value@, float_bits) {
            None => r is None,
            Some(v) => r is Some && r->Some_0@ == v,
        },
{
    match kind {
        ValueKind::Float => match float_bits {
            Some(b) => Some(SettingValue::Float(b)),
            None => None,
        },
        ValueKind::Int => match parse_u32(value.as_str()) {
            Some(n) => Some(SettingValue::Int(n)),
            None => None,
        },
        ValueKind::Bool => match parse_bool(value.as_str()) {
            Some(b) => Some(SettingValue::Bool(b)),
            None => None,
        },
        ValueKind::Text => Some(SettingValue::Text(value)),
    }
}

/// Sets the field named by `key` to `value` read as that field's type.
/// `float_bits` is as for `parse_spec`, and consulted for float fields only.
/// An unknown key or an unreadable value leaves the document as it was.
pub fn update_setting(doc: &mut Settings, key: &str, value: String, float_bits: Option<u64>) -> (r:
    Result<(), SettingsError>)
    ensures
        match key_spec(key@) {
            None => r == Err::<(), SettingsError>(SettingsError::UnknownKey) && final(doc)@ == old(
                doc,
            )@,
            Some(f) => match parse_spec(kind_of(f), value@, float_bits) {
                None => r == Err::<(), SettingsError>(SettingsError::InvalidValue) && final(doc)@
                    == old(doc)@,
                Some(v) => r is Ok && final(doc)@ == set_field(old(doc)@, f, v),
            },
        },
{
    let f = match lookup_key(key) {
        None => {
            return Err(SettingsError::UnknownKey);
        },
        Some(f) => f,
    };
    match parse_value(field_kind(f), value, float_bits) {
        None => Err(SettingsError::InvalidValue),
        Some(v) => {
            doc.set(f, v);
            Ok(())
        },
    }
}

/// Setting one field leaves every other field as it was, and the field set
/// then holds the value given.
pub proof fn lemma_set_field_touches_one(doc: SettingsView, f: Field, v: ValueView)
    requires
        kind_of_value(v) == kind_of(f),
    ensures
        field_value(set_field(doc, f, v), f) == v,
        forall|g: Field| g != f ==> #[trigger] field_value(set_field(doc, f, v), g) == field_value(doc, g),
{
}

} // verus!
