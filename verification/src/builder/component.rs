//! Builders for message components: buttons, select menus, action rows and text inputs.
use vstd::prelude::*;
use vstd::std_specs::convert::IntoSpec;
use crate::component::{
    ActionRow, Button, ButtonStyle, Component, ComponentType, SelectMenu, SelectOption, TextInput,
    TextInputStyle,
};
use crate::reaction::ReactionEmoji;
use crate::TitanString;

verus! {

/// A button of this style with nothing else set.
pub open spec fn blank_button<'a>(style: ButtonStyle) -> Button<'a> {
    Button {
        style,
        label: None,
        emoji: None,
        custom_id: None,
        url: None,
        disabled: false,
        component_type: ComponentType::Button,
    }
}

/// Builder for creating a Button.
#[derive(Debug, Clone)]
pub struct ButtonBuilder<'a> {
    inner: Button<'a>,
}

impl<'a> View for ButtonBuilder<'a> {
    type V = Button<'a>;

    /// The button built so far.
    closed spec fn view(&self) -> Button<'a> {
        self.inner
    }
}

impl<'a> Default for ButtonBuilder<'a> {
    fn default() -> (r: Self)
        ensures
            r@ == blank_button::<'a>(ButtonStyle::Primary),
    {
        Self::new()
    }
}

impl<'a> ButtonBuilder<'a> {
    /// Create a new `ButtonBuilder`: a primary button with nothing else set.
    pub fn new() -> (r: Self)
        ensures
            r@ == blank_button::<'a>(ButtonStyle::Primary),
    {
        ButtonBuilder {
            inner: Button {
                style: ButtonStyle::Primary,
                label: None,
                emoji: None,
                custom_id: None,
                url: None,
                disabled: false,
                component_type: ComponentType::Button,
            },
        }
    }

    /// A button of the given style with a label and a custom ID.
    fn labelled<T: Into<TitanString<'a>>, U: Into<TitanString<'a>>>(
        style: ButtonStyle,
        label: T,
        custom_id: U,
    ) -> (r: Self)
        ensures
            T::obeys_into_spec() ==> r@.label == Some(label.into_spec()),
            U::obeys_into_spec() ==> r@.custom_id == Some(custom_id.into_spec()),
            r@.label is Some && r@.custom_id is Some,
            (Button { label: None, custom_id: None, ..r@ }) == blank_button::<'a>(style),
    {
        Self::new().style(style).label(label).custom_id(custom_id)
    }

    /// Create a primary (blurple) button.
    pub fn primary<T: Into<TitanString<'a>>, U: Into<TitanString<'a>>>(label: T, custom_id: U) -> (r: Self)
        ensures
            T::obeys_into_spec() ==> r@.label == Some(label.into_spec()),
            U::obeys_into_spec() ==> r@.custom_id == Some(custom_id.into_spec()),
            r@.label is Some && r@.custom_id is Some,
            (Button { label: None, custom_id: None, ..r@ }) == blank_button::<'a>(ButtonStyle::Primary),
    {
        Self::labelled(ButtonStyle::Primary, label, custom_id)
    }

    /// Create a secondary (grey) button.
    pub fn secondary<T: Into<TitanString<'a>>, U: Into<TitanString<'a>>>(label: T, custom_id: U) -> (r: Self)
        ensures
            T::obeys_into_spec() ==> r@.label == Some(label.into_spec()),
            U::obeys_into_spec() ==> r@.custom_id == Some(custom_id.into_spec()),
            r@.label is Some && r@.custom_id is Some,
            (Button { label: None, custom_id: None, ..r@ }) == blank_button::<'a>(ButtonStyle::Secondary),
    {
        Self::labelled(ButtonStyle::Secondary, label, custom_id)
    }

    /// Create a success (green) button.
    pub fn success<T: Into<TitanString<'a>>, U: Into<TitanString<'a>>>(label: T, custom_id: U) -> (r: Self)
        ensures
            T::obeys_into_spec() ==> r@.label == Some(label.into_spec()),
            U::obeys_into_spec() ==> r@.custom_id == Some(custom_id.into_spec()),
            r@.label is Some && r@.custom_id is Some,
            (Button { label: None, custom_id: None, ..r@ }) == blank_button::<'a>(ButtonStyle::Success),
    {
        Self::labelled(ButtonStyle::Success, label, custom_id)
    }

    /// Create a danger (red) button.
    pub fn danger<T: Into<TitanString<'a>>, U: Into<TitanString<'a>>>(label: T, custom_id: U) -> (r: Self)
        ensures
            T::obeys_into_spec() ==> r@.label == Some(label.into_spec()),
            U::obeys_into_spec() ==> r@.custom_id == Some(custom_id.into_spec()),
            r@.label is Some && r@.custom_id is Some,
            (Button { label: None, custom_id: None, ..r@ }) == blank_button::<'a>(ButtonStyle::Danger),
    {
        Self::labelled(ButtonStyle::Danger, label, custom_id)
    }

    /// Create a link button (opens URL).
    pub fn link<T: Into<TitanString<'a>>, U: Into<TitanString<'a>>>(label: T, url: U) -> (r: Self)
        ensures
            T::obeys_into_spec() ==> r@.label == Some(label.into_spec()),
            U::obeys_into_spec() ==> r@.url == Some(url.into_spec()),
            r@.label is Some && r@.url is Some,
            (Button { label: None, url: None, ..r@ }) == blank_button::<'a>(ButtonStyle::Link),
    {
        Self::new().style(ButtonStyle::Link).label(label).url(url)
    }

    /// Set style.
    pub fn style(self, style: ButtonStyle) -> (r: Self)
        ensures
            r@ == (Button { style, ..self@ }),
    {
        let mut b = self;
        b.inner.style = style;
        b
    }

    /// Set label.
    pub fn label<T: Into<TitanString<'a>>>(self, label: T) -> (r: Self)
        ensures
            T::obeys_into_spec() ==> r@ == (Button { label: Some(label.into_spec()), ..self@ }),
            r@ == (Button { label: r@.label, ..self@ }),
            r@.label is Some,
    {
        let mut b = self;
        b.inner.label = Some(label.into());
        b
    }

    /// Set emoji.
    pub fn emoji<T: Into<ReactionEmoji<'a>>>(self, emoji: T) -> (r: Self)
        ensures
            T::obeys_into_spec() ==> r@ == (Button { emoji: Some(emoji.into_spec()), ..self@ }),
            r@ == (Button { emoji: r@.emoji, ..self@ }),
            r@.emoji is Some,
    {
        let mut b = self;
        b.inner.emoji = Some(emoji.into());
        b
    }

    /// Set custom ID.
    pub fn custom_id<T: Into<TitanString<'a>>>(self, id: T) -> (r: Self)
        ensures
            T::obeys_into_spec() ==> r@ == (Button { custom_id: Some(id.into_spec()), ..self@ }),
            r@ == (Button { custom_id: r@.custom_id, ..self@ }),
            r@.custom_id is Some,
    {
        let mut b = self;
        b.inner.custom_id = Some(id.into());
        b
    }

    /// Set URL.
    pub fn url<T: Into<TitanString<'a>>>(self, url: T) -> (r: Self)
        ensures
            T::obeys_into_spec() ==> r@ == (Button { url: Some(url.into_spec()), ..self@ }),
            r@ == (Button { url: r@.url, ..self@ }),
            r@.url is Some,
    {
        let mut b = self;
        b.inner.url = Some(url.into());
        b
    }

    /// Set disabled.
    pub fn disabled(self, disabled: bool) -> (r: Self)
        ensures
            r@ == (Button { disabled, ..self@ }),
    {
        let mut b = self;
        b.inner.disabled = disabled;
        b
    }

    /// Build the Component.
    pub fn build(self) -> (r: Component<'a>)
        ensures
            r == Component::Button(self@),
    {
        Component::Button(self.inner)
    }
}

/// Builder for creating a Select Menu.
#[derive(Debug, Clone)]
pub struct SelectMenuBuilder<'a> {
    inner: SelectMenu<'a>,
}

impl<'a> View for SelectMenuBuilder<'a> {
    type V = SelectMenu<'a>;

    /// The menu built so far.
    closed spec fn view(&self) -> SelectMenu<'a> {
        self.inner
    }
}

impl<'a> Default for SelectMenuBuilder<'a> {
    /// A menu with the custom ID "default_select"; a real menu should be given its own.
    fn default() -> (r: Self)
        ensures
            r@.custom_id == TitanString::<'a>::Borrowed("default_select"),
            r@ == (SelectMenu {
                custom_id: r@.custom_id,
                options: r@.options,
                placeholder: None,
                min_values: None,
                max_values: None,
                disabled: false,
                component_type: ComponentType::StringSelect,
            }),
            r@.options@.len() == 0,
    {
        Self::new("default_select")
    }
}

impl<'a> SelectMenuBuilder<'a> {
    /// Create a new `SelectMenuBuilder`: a string select with no options.
    pub fn new<T: Into<TitanString<'a>>>(custom_id: T) -> (r: Self)
        ensures
            T::obeys_into_spec() ==> r@.custom_id == custom_id.into_spec(),
            r@ == (SelectMenu {
                custom_id: r@.custom_id,
                options: r@.options,
                placeholder: None,
                min_values: None,
                max_values: None,
                disabled: false,
                component_type: ComponentType::StringSelect,
            }),
            r@.options@.len() == 0,
    {
        SelectMenuBuilder {
            inner: SelectMenu {
                custom_id: custom_id.into(),
                options: Vec::with_capacity(25),
                placeholder: None,
                min_values: None,
                max_values: None,
                disabled: false,
                component_type: ComponentType::StringSelect,
            },
        }
    }

    /// Add an option.
    pub fn option<T: Into<TitanString<'a>>, U: Into<TitanString<'a>>>(self, label: T, value: U) -> (r: Self)
        ensures
            T::obeys_into_spec() && U::obeys_into_spec() ==> r@.options@ == self@.options@.push(
                SelectOption {
                    label: label.into_spec(),
                    value: value.into_spec(),
                    description: None,
                    emoji: None,
                    default: false,
                },
            ),
            r@.options@.len() == self@.options@.len() + 1,
            r@.options@.drop_last() == self@.options@,
            r@ == (SelectMenu { options: r@.options, ..self@ }),
    {
        let mut b = self;
        b.inner.options.push(SelectOption {
            label: label.into(),
            value: value.into(),
            description: None,
            emoji: None,
            default: false,
        });
        b
    }

    /// Set placeholder.
    pub fn placeholder<T: Into<TitanString<'a>>>(self, placeholder: T) -> (r: Self)
        ensures
            T::obeys_into_spec() ==> r@ == (SelectMenu { placeholder: Some(placeholder.into_spec()), ..self@ }),
            r@ == (SelectMenu { placeholder: r@.placeholder, ..self@ }),
            r@.placeholder is Some,
    {
        let mut b = self;
        b.inner.placeholder = Some(placeholder.into());
        b
    }

    /// Set min values.
    pub fn min_values(self, min: u8) -> (r: Self)
        ensures
            r@ == (SelectMenu { min_values: Some(min), ..self@ }),
    {
        let mut b = self;
        b.inner.min_values = Some(min);
        b
    }

    /// Set max values.
    pub fn max_values(self, max: u8) -> (r: Self)
        ensures
            r@ == (SelectMenu { max_values: Some(max), ..self@ }),
    {
        let mut b = self;
        b.inner.max_values = Some(max);
        b
    }

    /// Set disabled.
    pub fn disabled(self, disabled: bool) -> (r: Self)
        ensures
            r@ == (SelectMenu { disabled, ..self@ }),
    {
        let mut b = self;
        b.inner.disabled = disabled;
        b
    }

    /// Build the Component.
    pub fn build(self) -> (r: Component<'a>)
        ensures
            r == Component::SelectMenu(self@),
    {
        Component::SelectMenu(self.inner)
    }
}

/// Builder for creating an Action Row.
#[derive(Debug, Clone)]
pub struct ActionRowBuilder<'a> {
    inner: ActionRow<'a>,
}

impl<'a> View for ActionRowBuilder<'a> {
    type V = ActionRow<'a>;

    /// The row built so far.
    closed spec fn view(&self) -> ActionRow<'a> {
        self.inner
    }
}

impl<'a> Default for ActionRowBuilder<'a> {
    fn default() -> (r: Self)
        ensures
            r@.component_type == ComponentType::ActionRow,
            r@.components@.len() == 0,
    {
        Self::new()
    }
}

impl<'a> ActionRowBuilder<'a> {
    /// Create a new, empty action row.
    pub fn new() -> (r: Self)
        ensures
            r@.component_type == ComponentType::ActionRow,
            r@.components@.len() == 0,
    {
        ActionRowBuilder {
            inner: ActionRow { components: Vec::with_capacity(5), component_type: ComponentType::ActionRow },
        }
    }

    /// Add a button.
    pub fn add_button(self, button: ButtonBuilder<'a>) -> (r: Self)
        ensures
            r@.components@ == self@.components@.push(Component::Button(button@)),
            r@.component_type == self@.component_type,
    {
        let mut b = self;
        b.inner.components.push(button.build());
        b
    }

    /// Add a select menu.
    pub fn add_select_menu(self, menu: SelectMenuBuilder<'a>) -> (r: Self)
        ensures
            r@.components@ == self@.components@.push(Component::SelectMenu(menu@)),
            r@.component_type == self@.component_type,
    {
        let mut b = self;
        b.inner.components.push(menu.build());
        b
    }

    /// Add a text input (for modals).
    pub fn input(self, input: TextInputBuilder<'a>) -> (r: Self)
        ensures
            r@.components@ == self@.components@.push(Component::TextInput(input@)),
            r@.component_type == self@.component_type,
    {
        let mut b = self;
        b.inner.components.push(input.build());
        b
    }

    /// Build the Component.
    pub fn build(self) -> (r: Component<'a>)
        ensures
            r == Component::ActionRow(self@),
    {
        Component::ActionRow(self.inner)
    }
}

/// Builder for creating a Text Input.
#[derive(Debug, Clone)]
pub struct TextInputBuilder<'a> {
    inner: TextInput<'a>,
}

impl<'a> View for TextInputBuilder<'a> {
    type V = TextInput<'a>;

    /// The input built so far.
    closed spec fn view(&self) -> TextInput<'a> {
        self.inner
    }
}

impl<'a> TextInputBuilder<'a> {
    /// Create a new text input with an ID, a style and a label.
    pub fn new<T: Into<TitanString<'a>>, U: Into<TitanString<'a>>>(custom_id: T, style: TextInputStyle, label: U) -> (r: Self)
        ensures
            T::obeys_into_spec() ==> r@.custom_id == custom_id.into_spec(),
            U::obeys_into_spec() ==> r@.label == label.into_spec(),
            r@ == (TextInput {
                component_type: ComponentType::TextInput,
                custom_id: r@.custom_id,
                style,
                label: r@.label,
                min_length: None,
                max_length: None,
                required: None,
                value: None,
                placeholder: None,
            }),
    {
        TextInputBuilder {
            inner: TextInput {
                component_type: ComponentType::TextInput,
                custom_id: custom_id.into(),
                style,
                label: label.into(),
                min_length: None,
                max_length: None,
                required: None,
                value: None,
                placeholder: None,
            },
        }
    }

    /// Set the minimum length.
    pub fn min_length(self, min: u16) -> (r: Self)
        ensures
            r@ == (TextInput { min_length: Some(min), ..self@ }),
    {
        let mut b = self;
        b.inner.min_length = Some(min);
        b
    }

    /// Set the maximum length.
    pub fn max_length(self, max: u16) -> (r: Self)
        ensures
            r@ == (TextInput { max_length: Some(max), ..self@ }),
    {
        let mut b = self;
        b.inner.max_length = Some(max);
        b
    }

    /// Set whether the input is required.
    pub fn required(self, required: bool) -> (r: Self)
        ensures
            r@ == (TextInput { required: Some(required), ..self@ }),
    {
        let mut b = self;
        b.inner.required = Some(required);
        b
    }

    /// Set the pre-filled value.
    pub fn value<T: Into<TitanString<'a>>>(self, value: T) -> (r: Self)
        ensures
            T::obeys_into_spec() ==> r@ == (TextInput { value: Some(value.into_spec()), ..self@ }),
            r@ == (TextInput { value: r@.value, ..self@ }),
            r@.value is Some,
    {
        let mut b = self;
        b.inner.value = Some(value.into());
        b
    }

    /// Set the placeholder.
    pub fn placeholder<T: Into<TitanString<'a>>>(self, placeholder: T) -> (r: Self)
        ensures
            T::obeys_into_spec() ==> r@ == (TextInput { placeholder: Some(placeholder.into_spec()), ..self@ }),
            r@ == (TextInput { placeholder: r@.placeholder, ..self@ }),
            r@.placeholder is Some,
    {
        let mut b = self;
        b.inner.placeholder = Some(placeholder.into());
        b
    }

    /// Build the Component.
    pub fn build(self) -> (r: Component<'a>)
        ensures
            r == Component::TextInput(self@),
    {
        Component::TextInput(self.inner)
    }
}

impl<'a> From<ButtonBuilder<'a>> for Component<'a> {
    fn from(builder: ButtonBuilder<'a>) -> (r: Self) {
        builder.build()
    }
}

impl<'a> vstd::std_specs::convert::FromSpecImpl<ButtonBuilder<'a>> for Component<'a> {
    open spec fn obeys_from_spec() -> bool {
        true
    }

    open spec fn from_spec(builder: ButtonBuilder<'a>) -> Component<'a> {
        Component::Button(builder@)
    }
}

impl<'a> From<SelectMenuBuilder<'a>> for Component<'a> {
    fn from(builder: SelectMenuBuilder<'a>) -> (r: Self) {
        builder.build()
    }
}

impl<'a> vstd::std_specs::convert::FromSpecImpl<SelectMenuBuilder<'a>> for Component<'a> {
    open spec fn obeys_from_spec() -> bool {
        true
    }

    open spec fn from_spec(builder: SelectMenuBuilder<'a>) -> Component<'a> {
        Component::SelectMenu(builder@)
    }
}

impl<'a> From<ActionRowBuilder<'a>> for Component<'a> {
    fn from(builder: ActionRowBuilder<'a>) -> (r: Self) {
        builder.build()
    }
}

impl<'a> vstd::std_specs::convert::FromSpecImpl<ActionRowBuilder<'a>> for Component<'a> {
    open spec fn obeys_from_spec() -> bool {
        true
    }

    open spec fn from_spec(builder: ActionRowBuilder<'a>) -> Component<'a> {
        Component::ActionRow(builder@)
    }
}

} // verus!
