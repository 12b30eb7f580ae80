//! Message Components (Buttons, Select Menus, etc.)
use vstd::prelude::*;
use vstd::std_specs::convert::IntoSpec;
use crate::builder::component::{blank_button, ButtonBuilder, SelectMenuBuilder};
use crate::reaction::ReactionEmoji;
use crate::TitanString;

verus! {

/// Top-level component type.
///
/// In messages, this is usually an `ActionRow`.
#[derive(Debug)]
pub enum Component<'a> {
    /// An action row containing other components.
    ActionRow(ActionRow<'a>),
    /// A button component (only valid inside ActionRow).
    Button(Button<'a>),
    /// A select menu (only valid inside ActionRow).
    SelectMenu(SelectMenu<'a>),
    /// A text input (only valid in modals).
    TextInput(TextInput<'a>),
}

/// The type of component.
#[derive(Debug, Clone, Copy, PartialEq, Eq, Structural)]
pub enum ComponentType {
    /// Container for other components.
    ActionRow,
    /// Button object.
    Button,
    /// Select menu for picking text.
    StringSelect,
    /// Text input object.
    TextInput,
    /// Select menu for users.
    UserSelect,
    /// Select menu for roles.
    RoleSelect,
    /// Select menu for mentionables (users + roles).
    MentionableSelect,
    /// Select menu for channels.
    ChannelSelect,
}

/// A container for other components.
#[derive(Debug)]
pub struct ActionRow<'a> {
    /// Type 1 (ActionRow).
    pub component_type: ComponentType,
    /// List of child components.
    pub components: Vec<Component<'a>>,
}

/// A clickable button.
#[derive(Debug, Clone)]
pub struct Button<'a> {
    /// Type 2 (Button).
    pub component_type: ComponentType,
    /// Style of the button.
    pub style: ButtonStyle,
    /// Text label (max 80 characters).
    pub label: Option<TitanString<'a>>,
    /// Emoji to display.
    pub emoji: Option<ReactionEmoji<'a>>,
    /// Custom ID (max 100 chars). Required for non-link buttons.
    pub custom_id: Option<TitanString<'a>>,
    /// URL for link buttons.
    pub url: Option<TitanString<'a>>,
    /// Whether the button is disabled.
    pub disabled: bool,
}

#[derive(Debug, Clone, Copy, PartialEq, Eq, Structural)]
pub enum ButtonStyle {
    /// Blurple (Primary).
    Primary,
    /// Grey (Secondary).
    Secondary,
    /// Green (Success).
    Success,
    /// Red (Danger).
    Danger,
    /// Grey Link (Link).
    Link,
}

/// A menu for selecting items.
#[derive(Debug, Clone)]
pub struct SelectMenu<'a> {
    /// Type (3, 5, 6, 7, 8).
    pub component_type: ComponentType,
    /// Custom ID to identify the menu.
    pub custom_id: TitanString<'a>,
    /// Options (only for StringSelect).
    pub options: Vec<SelectOption<'a>>,
    /// Placeholder text.
    pub placeholder: Option<TitanString<'a>>,
    /// Minimum values to append.
    pub min_values: Option<u8>,
    /// Maximum values to append.
    pub max_values: Option<u8>,
    /// Whether the menu is disabled.
    pub disabled: bool,
}

/// An option in a string select menu.
#[derive(Debug, Clone)]
pub struct SelectOption<'a> {
    /// The user-facing name of the option.
    pub label: TitanString<'a>,
    /// The dev-facing value of the option.
    pub value: TitanString<'a>,
    /// Additional description.
    pub description: Option<TitanString<'a>>,
    /// Emoji for the option.
    pub emoji: Option<ReactionEmoji<'a>>,
    /// Whether this option is selected by default.
    pub default: bool,
}

/// A text input field (Modals only).
#[derive(Debug, Clone)]
pub struct TextInput<'a> {
    /// Type 4 (TextInput).
    pub component_type: ComponentType,
    /// Custom ID.
    pub custom_id: TitanString<'a>,
    /// Input style (Short vs Paragraph).
    pub style: TextInputStyle,
    /// Label for the input.
    pub label: TitanString<'a>,
    /// Minimum length.
    pub min_length: Option<u16>,
    /// Maximum length.
    pub max_length: Option<u16>,
    /// Whether required.
    pub required: Option<bool>,
    /// Pre-filled value.
    pub value: Option<TitanString<'a>>,
    /// Placeholder text.
    pub placeholder: Option<TitanString<'a>>,
}

/// Text Input Style.
#[derive(Debug, Clone, Copy, PartialEq, Eq, Structural)]
pub enum TextInputStyle {
    /// Single-line input.
    Short,
    /// Multi-line input.
    Paragraph,
}

/// The wire code of a `ComponentType`.
pub open spec fn component_type_code(v: ComponentType) -> u8 {
    match v {
        ComponentType::ActionRow => 1,
        ComponentType::Button => 2,
        ComponentType::StringSelect => 3,
        ComponentType::TextInput => 4,
        ComponentType::UserSelect => 5,
        ComponentType::RoleSelect => 6,
        ComponentType::MentionableSelect => 7,
        ComponentType::ChannelSelect => 8,
    }
}

/// The value that a wire code stands for; unknown codes give `ComponentType::ActionRow`.
pub open spec fn component_type_from_code(code: u8) -> ComponentType {
    match code {
        2 => ComponentType::Button,
        3 => ComponentType::StringSelect,
        4 => ComponentType::TextInput,
        5 => ComponentType::UserSelect,
        6 => ComponentType::RoleSelect,
        7 => ComponentType::MentionableSelect,
        8 => ComponentType::ChannelSelect,
        _ => ComponentType::ActionRow,
    }
}

impl From<u8> for ComponentType {
    fn from(value: u8) -> (r: Self) {
        match value {
            2 => ComponentType::Button,
            3 => ComponentType::StringSelect,
            4 => ComponentType::TextInput,
            5 => ComponentType::UserSelect,
            6 => ComponentType::RoleSelect,
            7 => ComponentType::MentionableSelect,
            8 => ComponentType::ChannelSelect,
            _ => ComponentType::ActionRow,
        }
    }
}

impl vstd::std_specs::convert::FromSpecImpl<u8> for ComponentType {
    open spec fn obeys_from_spec() -> bool {
        true
    }

    open spec fn from_spec(value: u8) -> ComponentType {
        component_type_from_code(value)
    }
}

impl From<ComponentType> for u8 {
    fn from(value: ComponentType) -> (r: u8) {
        match value {
            ComponentType::ActionRow => 1,
            ComponentType::Button => 2,
            ComponentType::StringSelect => 3,
            ComponentType::TextInput => 4,
            ComponentType::UserSelect => 5,
            ComponentType::RoleSelect => 6,
            ComponentType::MentionableSelect => 7,
            ComponentType::ChannelSelect => 8,
        }
    }
}

impl vstd::std_specs::convert::FromSpecImpl<ComponentType> for u8 {
    open spec fn obeys_from_spec() -> bool {
        true
    }

    open spec fn from_spec(value: ComponentType) -> u8 {
        component_type_code(value)
    }
}

/// Converting a `ComponentType` to its code and back gives the same value.
pub proof fn lemma_component_type_code_roundtrip(v: ComponentType)
    ensures
        component_type_from_code(component_type_code(v)) == v,
{
}


/// The wire code of a `ButtonStyle`.
pub open spec fn button_style_code(v: ButtonStyle) -> u8 {
    match v {
        ButtonStyle::Primary => 1,
        ButtonStyle::Secondary => 2,
        ButtonStyle::Success => 3,
        ButtonStyle::Danger => 4,
        ButtonStyle::Link => 5,
    }
}

/// The value that a wire code stands for; unknown codes give `ButtonStyle::Primary`.
pub open spec fn button_style_from_code(code: u8) -> ButtonStyle {
    match code {
        2 => ButtonStyle::Secondary,
        3 => ButtonStyle::Success,
        4 => ButtonStyle::Danger,
        5 => ButtonStyle::Link,
        _ => ButtonStyle::Primary,
    }
}

impl From<u8> for ButtonStyle {
    fn from(value: u8) -> (r: Self) {
        match value {
            2 => ButtonStyle::Secondary,
            3 => ButtonStyle::Success,
            4 => ButtonStyle::Danger,
            5 => ButtonStyle::Link,
            _ => ButtonStyle::Primary,
        }
    }
}

impl vstd::std_specs::convert::FromSpecImpl<u8> for ButtonStyle {
    open spec fn obeys_from_spec() -> bool {
        true
    }

    open spec fn from_spec(value: u8) -> ButtonStyle {
        button_style_from_code(value)
    }
}

impl From<ButtonStyle> for u8 {
    fn from(value: ButtonStyle) -> (r: u8) {
        match value {
            ButtonStyle::Primary => 1,
            ButtonStyle::Secondary => 2,
            ButtonStyle::Success => 3,
            ButtonStyle::Danger => 4,
            ButtonStyle::Link => 5,
        }
    }
}

impl vstd::std_specs::convert::FromSpecImpl<ButtonStyle> for u8 {
    open spec fn obeys_from_spec() -> bool {
        true
    }

    open spec fn from_spec(value: ButtonStyle) -> u8 {
        button_style_code(value)
    }
}

/// Converting a `ButtonStyle` to its code and back gives the same value.
pub proof fn lemma_button_style_code_roundtrip(v: ButtonStyle)
    ensures
        button_style_from_code(button_style_code(v)) == v,
{
}


/// The wire code of a `TextInputStyle`.
pub open spec fn text_input_style_code(v: TextInputStyle) -> u8 {
    match v {
        TextInputStyle::Short => 1,
        TextInputStyle::Paragraph => 2,
    }
}

/// The value that a wire code stands for; unknown codes give `TextInputStyle::Short`.
pub open spec fn text_input_style_from_code(code: u8) -> TextInputStyle {
    match code {
        2 => TextInputStyle::Paragraph,
        _ => TextInputStyle::Short,
    }
}

impl From<u8> for TextInputStyle {
    fn from(value: u8) -> (r: Self) {
        match value {
            2 => TextInputStyle::Paragraph,
            _ => TextInputStyle::Short,
        }
    }
}

impl vstd::std_specs::convert::FromSpecImpl<u8> for TextInputStyle {
    open spec fn obeys_from_spec() -> bool {
        true
    }

    open spec fn from_spec(value: u8) -> TextInputStyle {
        text_input_style_from_code(value)
    }
}

impl From<TextInputStyle> for u8 {
    fn from(value: TextInputStyle) -> (r: u8) {
        match value {
            TextInputStyle::Short => 1,
            TextInputStyle::Paragraph => 2,
        }
    }
}

impl vstd::std_specs::convert::FromSpecImpl<TextInputStyle> for u8 {
    open spec fn obeys_from_spec() -> bool {
        true
    }

    open spec fn from_spec(value: TextInputStyle) -> u8 {
        text_input_style_code(value)
    }
}

/// Converting a `TextInputStyle` to its code and back gives the same value.
pub proof fn lemma_text_input_style_code_roundtrip(v: TextInputStyle)
    ensures
        text_input_style_from_code(text_input_style_code(v)) == v,
{
}


/// Whether `b` is a copy of `a`: the same kind of component; an action row with the same
/// type and, child by child, copies of its children; otherwise a clone of the same button,
/// select menu or text input.
pub open spec fn component_copied<'a>(a: Component<'a>, b: Component<'a>) -> bool
    decreases a, 1int,
{
    match a {
        Component::ActionRow(ra) => match b {
            Component::ActionRow(rb) => rb.component_type == ra.component_type && components_copied(
                ra.components@,
                rb.components@,
            ),
            _ => false,
        },
        Component::Button(xa) => b matches Component::Button(xb) && cloned(xa, xb),
        Component::SelectMenu(xa) => b matches Component::SelectMenu(xb) && cloned(xa, xb),
        Component::TextInput(xa) => b matches Component::TextInput(xb) && cloned(xa, xb),
    }
}

/// Whether `b` holds, one for one and in order, copies of the components in `a`.
pub open spec fn components_copied<'a>(a: Seq<Component<'a>>, b: Seq<Component<'a>>) -> bool
    decreases a, 0int,
{
    if a.len() == 0 {
        b.len() == 0
    } else {
        &&& b.len() == a.len()
        &&& component_copied(a.last(), b.last())
        &&& components_copied(a.drop_last(), b.drop_last())
    }
}

/// A copy of a component, the children of an action row copied in turn.
fn clone_component<'a>(c: &Component<'a>) -> (r: Component<'a>)
    ensures
        component_copied(*c, r),
    decreases c,
{
    match c {
        Component::ActionRow(row) => {
            let mut components: Vec<Component<'a>> = Vec::new();
            let mut i: usize = 0;
            while i < row.components.len()
                invariant
                    *c == Component::ActionRow(*row),
                    i <= row.components.len(),
                    components_copied(row.components@.take(i as int), components@),
                decreases row.components.len() - i,
            {
                assert(decreases_to!(*c => (*c)->ActionRow_0));
                assert(decreases_to!((*c)->ActionRow_0 => (*c)->ActionRow_0.components));
                assert(decreases_to!(row.components => row.components@));
                assert(decreases_to!(row.components@ => row.components@[i as int]));
                let ghost before = components@;
                let x = clone_component(&row.components[i]);
                components.push(x);
                proof {
                    let t = row.components@.take(i as int + 1);
                    assert(t.drop_last() =~= row.components@.take(i as int));
                    assert(components@.drop_last() =~= before);
                    assert(t.last() == row.components@[i as int]);
                }
                i = i + 1;
            }
            assert(row.components@.take(i as int) =~= row.components@);
            Component::ActionRow(ActionRow { component_type: row.component_type, components })
        },
        Component::Button(b) => Component::Button(b.clone()),
        Component::SelectMenu(m) => Component::SelectMenu(m.clone()),
        Component::TextInput(t) => Component::TextInput(t.clone()),
    }
}

impl<'a> Clone for Component<'a> {
    fn clone(&self) -> (r: Self)
        ensures
            component_copied(*self, r),
    {
        clone_component(self)
    }
}

impl<'a> Clone for ActionRow<'a> {
    fn clone(&self) -> (r: Self)
        ensures
            r.component_type == self.component_type,
            components_copied(self.components@, r.components@),
    {
        let mut components: Vec<Component<'a>> = Vec::new();
        let mut i: usize = 0;
        while i < self.components.len()
            invariant
                i <= self.components.len(),
                components_copied(self.components@.take(i as int), components@),
            decreases self.components.len() - i,
        {
            let ghost before = components@;
            let x = clone_component(&self.components[i]);
            components.push(x);
            proof {
                let t = self.components@.take(i as int + 1);
                assert(t.drop_last() =~= self.components@.take(i as int));
                assert(components@.drop_last() =~= before);
                assert(t.last() == self.components@[i as int]);
            }
            i = i + 1;
        }
        assert(self.components@.take(i as int) =~= self.components@);
        ActionRow { component_type: self.component_type, components }
    }
}

impl<'a> Default for ActionRow<'a> {
    fn default() -> (r: Self)
        ensures
            r.component_type == ComponentType::ActionRow,
            r.components@.len() == 0,
    {
        ActionRow { component_type: ComponentType::ActionRow, components: Vec::new() }
    }
}

impl<'a> Button<'a> {
    /// A builder for a button with this custom ID and style.
    pub fn builder<T: Into<TitanString<'a>>>(custom_id: T, style: ButtonStyle) -> (r: ButtonBuilder<'a>)
        ensures
            T::obeys_into_spec() ==> r@.custom_id == Some(custom_id.into_spec()),
            r@.custom_id is Some,
            (Button { custom_id: None, ..r@ }) == blank_button::<'a>(style),
    {
        ButtonBuilder::new().custom_id(custom_id).style(style)
    }

    /// A builder for a link button to this URL.
    pub fn builder_link<T: Into<TitanString<'a>>>(url: T) -> (r: ButtonBuilder<'a>)
        ensures
            T::obeys_into_spec() ==> r@.url == Some(url.into_spec()),
            r@.url is Some,
            (Button { url: None, ..r@ }) == blank_button::<'a>(ButtonStyle::Link),
    {
        ButtonBuilder::new().url(url).style(ButtonStyle::Link)
    }
}

impl<'a> SelectMenu<'a> {
    /// A builder for a select menu with this custom ID.
    pub fn builder<T: Into<TitanString<'a>>>(custom_id: T) -> (r: SelectMenuBuilder<'a>)
        ensures
            T::obeys_into_spec() ==> r@.custom_id == custom_id.into_spec(),
            r@ == (SelectMenu {
                custom_id: r@.custom_id,
                options: r@.options,
                placeholder: None,
                min_values: None,
                max_values: None,
                disabled: false,
                component_type: ComponentType::StringSelect,
            }),
            r@.options@.len() == 0,
    {
        SelectMenuBuilder::new(custom_id)
    }
}

} // verus!
