//! The embed builder.
use vstd::prelude::*;
use vstd::std_specs::convert::IntoSpec;
use crate::{Embed, EmbedAuthor, EmbedField, EmbedFooter, EmbedMedia, TitanString};

verus! {

/// Green, the color of a success embed.
pub const COLOR_SUCCESS: u32 = 0x0057_F287;

/// Red, the color of an error embed.
pub const COLOR_ERROR: u32 = 0x00ED_4245;

/// Blurple, the color of an info embed.
pub const COLOR_INFO: u32 = 0x0058_65F2;

/// Yellow, the color of a warning embed.
pub const COLOR_WARNING: u32 = 0x00FE_E75C;

/// The optional string that an optional convertible value gives.
pub open spec fn option_into<'a, T: Into<TitanString<'a>>>(o: Option<T>) -> Option<TitanString<'a>> {
    match o {
        Some(t) => Some(t.into_spec()),
        None => None,
    }
}

/// Converts an optional value into an optional string.
pub fn convert_option<'a, T: Into<TitanString<'a>>>(o: Option<T>) -> (r: Option<TitanString<'a>>)
    ensures
        T::obeys_into_spec() ==> r == option_into(o),
        r is Some <==> o is Some,
{
    match o {
        Some(t) => Some(t.into()),
        None => None,
    }
}

/// The color value `0xRRGGBB` of three channel intensities.
pub open spec fn rgb(r: u8, g: u8, b: u8) -> u32 {
    (r as int * 0x1_0000 + g as int * 0x100 + b as int) as u32
}

/// Media with only a URL set.
pub open spec fn media_at<'a>(url: TitanString<'a>) -> EmbedMedia<'a> {
    EmbedMedia { url: Some(url), proxy_url: None, height: None, width: None }
}

/// Builder for creating an Embed.
#[derive(Debug, Clone, Default)]
pub struct EmbedBuilder<'a> {
    embed: Embed<'a>,
}

impl<'a> View for EmbedBuilder<'a> {
    type V = Embed<'a>;

    /// The embed built so far.
    closed spec fn view(&self) -> Embed<'a> {
        self.embed
    }
}

impl<'a> EmbedBuilder<'a> {
    /// Create a new EmbedBuilder.
    pub fn new() -> (r: Self)
        ensures
            r@.is_blank(),
    {
        EmbedBuilder { embed: Embed::default() }
    }

    /// Create a simple embed with title and description.
    pub fn simple<T: Into<TitanString<'a>>, U: Into<TitanString<'a>>>(title: T, description: U) -> (r: Self)
        ensures
            T::obeys_into_spec() ==> r@.title == Some(title.into_spec()),
            U::obeys_into_spec() ==> r@.description == Some(description.into_spec()),
            r@.title is Some,
            r@.description is Some,
            (Embed { title: None, description: None, ..r@ }).is_blank(),
    {
        Self::new().title(title).description(description)
    }

    /// Create a success embed (green color).
    pub fn success<T: Into<TitanString<'a>>, U: Into<TitanString<'a>>>(title: T, description: U) -> (r: Self)
        ensures
            T::obeys_into_spec() ==> r@.title == Some(title.into_spec()),
            U::obeys_into_spec() ==> r@.description == Some(description.into_spec()),
            r@.title is Some,
            r@.description is Some,
            r@.color == Some(COLOR_SUCCESS),
            (Embed { title: None, description: None, color: None, ..r@ }).is_blank(),
    {
        Self::simple(title, description).color(COLOR_SUCCESS)
    }

    /// Create an error embed (red color).
    pub fn error<T: Into<TitanString<'a>>, U: Into<TitanString<'a>>>(title: T, description: U) -> (r: Self)
        ensures
            T::obeys_into_spec() ==> r@.title == Some(title.into_spec()),
            U::obeys_into_spec() ==> r@.description == Some(description.into_spec()),
            r@.title is Some,
            r@.description is Some,
            r@.color == Some(COLOR_ERROR),
            (Embed { title: None, description: None, color: None, ..r@ }).is_blank(),
    {
        Self::simple(title, description).color(COLOR_ERROR)
    }

    /// Create an info embed (blurple color).
    pub fn info<T: Into<TitanString<'a>>, U: Into<TitanString<'a>>>(title: T, description: U) -> (r: Self)
        ensures
            T::obeys_into_spec() ==> r@.title == Some(title.into_spec()),
            U::obeys_into_spec() ==> r@.description == Some(description.into_spec()),
            r@.title is Some,
            r@.description is Some,
            r@.color == Some(COLOR_INFO),
            (Embed { title: None, description: None, color: None, ..r@ }).is_blank(),
    {
        Self::simple(title, description).color(COLOR_INFO)
    }

    /// Create a warning embed (yellow color).
    pub fn warning<T: Into<TitanString<'a>>, U: Into<TitanString<'a>>>(title: T, description: U) -> (r: Self)
        ensures
            T::obeys_into_spec() ==> r@.title == Some(title.into_spec()),
            U::obeys_into_spec() ==> r@.description == Some(description.into_spec()),
            r@.title is Some,
            r@.description is Some,
            r@.color == Some(COLOR_WARNING),
            (Embed { title: None, description: None, color: None, ..r@ }).is_blank(),
    {
        Self::simple(title, description).color(COLOR_WARNING)
    }

    /// Set the title of the embed.
    pub fn title<T: Into<TitanString<'a>>>(self, title: T) -> (r: Self)
        ensures
            T::obeys_into_spec() ==> r@ == (Embed { title: Some(title.into_spec()), ..self@ }),
            r@ == (Embed { title: r@.title, ..self@ }),
            r@.title is Some,
    {
        let mut b = self;
        b.embed.title = Some(title.into());
        b
    }

    /// Set the description of the embed.
    pub fn description<T: Into<TitanString<'a>>>(self, description: T) -> (r: Self)
        ensures
            T::obeys_into_spec() ==> r@ == (Embed { description: Some(description.into_spec()), ..self@ }),
            r@ == (Embed { description: r@.description, ..self@ }),
            r@.description is Some,
    {
        let mut b = self;
        b.embed.description = Some(description.into());
        b
    }

    /// Set the URL of the embed.
    pub fn url<T: Into<TitanString<'a>>>(self, url: T) -> (r: Self)
        ensures
            T::obeys_into_spec() ==> r@ == (Embed { url: Some(url.into_spec()), ..self@ }),
            r@ == (Embed { url: r@.url, ..self@ }),
            r@.url is Some,
    {
        let mut b = self;
        b.embed.url = Some(url.into());
        b
    }

    /// Set the timestamp of the embed.
    pub fn timestamp<T: Into<TitanString<'a>>>(self, timestamp: T) -> (r: Self)
        ensures
            T::obeys_into_spec() ==> r@ == (Embed { timestamp: Some(timestamp.into_spec()), ..self@ }),
            r@ == (Embed { timestamp: r@.timestamp, ..self@ }),
            r@.timestamp is Some,
    {
        let mut b = self;
        b.embed.timestamp = Some(timestamp.into());
        b
    }

    /// Set the color of the embed.
    pub fn color(self, color: u32) -> (r: Self)
        ensures
            r@ == (Embed { color: Some(color), ..self@ }),
    {
        let mut b = self;
        b.embed.color = Some(color);
        b
    }

    /// Set the color of the embed from RGB values.
    pub fn color_rgb(self, r: u8, g: u8, b: u8) -> (res: Self)
        ensures
            res@ == (Embed { color: Some(rgb(r, g, b)), ..self@ }),
    {
        let c: u32 = ((r as u32) << 16u32) | ((g as u32) << 8u32) | (b as u32);
        assert(c == r as int * 0x1_0000 + g as int * 0x100 + b as int) by (bit_vector)
            requires
                c == ((r as u32) << 16u32) | ((g as u32) << 8u32) | (b as u32),
        ;
        self.color(c)
    }

    /// Set the footer of the embed.
    pub fn footer<T: Into<TitanString<'a>>, U: Into<TitanString<'a>>>(self, text: T, icon_url: Option<U>) -> (r: Self)
        ensures
            T::obeys_into_spec() && U::obeys_into_spec() ==> r@ == (Embed {
                footer: Some(EmbedFooter { text: text.into_spec(), icon_url: option_into(icon_url), proxy_icon_url: None }),
                ..self@
            }),
            r@ == (Embed { footer: r@.footer, ..self@ }),
            r@.footer matches Some(f) && f.proxy_icon_url is None && (f.icon_url is Some <==> icon_url is Some),
    {
        let mut b = self;
        b.embed.footer = Some(EmbedFooter { text: text.into(), icon_url: convert_option(icon_url), proxy_icon_url: None });
        b
    }

    /// Set the image of the embed.
    pub fn image<T: Into<TitanString<'a>>>(self, url: T) -> (r: Self)
        ensures
            T::obeys_into_spec() ==> r@ == (Embed { image: Some(media_at(url.into_spec())), ..self@ }),
            r@ == (Embed { image: r@.image, ..self@ }),
            r@.image matches Some(m) && m == media_at(m.url.unwrap()) && m.url is Some,
    {
        let mut b = self;
        b.embed.image = Some(EmbedMedia { url: Some(url.into()), proxy_url: None, height: None, width: None });
        b
    }

    /// Set the thumbnail of the embed.
    pub fn thumbnail<T: Into<TitanString<'a>>>(self, url: T) -> (r: Self)
        ensures
            T::obeys_into_spec() ==> r@ == (Embed { thumbnail: Some(media_at(url.into_spec())), ..self@ }),
            r@ == (Embed { thumbnail: r@.thumbnail, ..self@ }),
            r@.thumbnail matches Some(m) && m == media_at(m.url.unwrap()) && m.url is Some,
    {
        let mut b = self;
        b.embed.thumbnail = Some(EmbedMedia { url: Some(url.into()), proxy_url: None, height: None, width: None });
        b
    }

    /// Set the author of the embed.
    pub fn author<T: Into<TitanString<'a>>, U: Into<TitanString<'a>>, V: Into<TitanString<'a>>>(
        self,
        name: T,
        url: Option<U>,
        icon_url: Option<V>,
    ) -> (r: Self)
        ensures
            T::obeys_into_spec() && U::obeys_into_spec() && V::obeys_into_spec() ==> r@ == (Embed {
                author: Some(EmbedAuthor {
                    name: name.into_spec(),
                    url: option_into(url),
                    icon_url: option_into(icon_url),
                    proxy_icon_url: None,
                }),
                ..self@
            }),
            r@ == (Embed { author: r@.author, ..self@ }),
            r@.author matches Some(a) && a.proxy_icon_url is None && (a.url is Some <==> url is Some) && (
            a.icon_url is Some <==> icon_url is Some),
    {
        let mut b = self;
        b.embed.author = Some(EmbedAuthor {
            name: name.into(),
            url: convert_option(url),
            icon_url: convert_option(icon_url),
            proxy_icon_url: None,
        });
        b
    }

    /// Add a field to the embed.
    pub fn field<T: Into<TitanString<'a>>, U: Into<TitanString<'a>>>(self, name: T, value: U, inline: bool) -> (r: Self)
        ensures
            T::obeys_into_spec() && U::obeys_into_spec() ==> r@.fields@ == self@.fields@.push(
                EmbedField { name: name.into_spec(), value: value.into_spec(), inline },
            ),
            r@.fields@.len() == self@.fields@.len() + 1,
            r@.fields@.drop_last() == self@.fields@,
            r@.fields@.last().inline == inline,
            r@ == (Embed { fields: r@.fields, ..self@ }),
    {
        let mut b = self;
        b.embed.fields.push(EmbedField { name: name.into(), value: value.into(), inline });
        b
    }

    /// Add an inline field.
    pub fn field_inline<T: Into<TitanString<'a>>, U: Into<TitanString<'a>>>(self, name: T, value: U) -> (r: Self)
        ensures
            T::obeys_into_spec() && U::obeys_into_spec() ==> r@.fields@ == self@.fields@.push(
                EmbedField { name: name.into_spec(), value: value.into_spec(), inline: true },
            ),
            r@.fields@.len() == self@.fields@.len() + 1,
            r@.fields@.drop_last() == self@.fields@,
            r@.fields@.last().inline,
            r@ == (Embed { fields: r@.fields, ..self@ }),
    {
        self.field(name, value, true)
    }

    /// Add a block field (not inline).
    pub fn field_block<T: Into<TitanString<'a>>, U: Into<TitanString<'a>>>(self, name: T, value: U) -> (r: Self)
        ensures
            T::obeys_into_spec() && U::obeys_into_spec() ==> r@.fields@ == self@.fields@.push(
                EmbedField { name: name.into_spec(), value: value.into_spec(), inline: false },
            ),
            r@.fields@.len() == self@.fields@.len() + 1,
            r@.fields@.drop_last() == self@.fields@,
            !r@.fields@.last().inline,
            r@ == (Embed { fields: r@.fields, ..self@ }),
    {
        self.field(name, value, false)
    }

    /// Build the Embed.
    pub fn build(self) -> (r: Embed<'a>)
        ensures
            r == self@,
    {
        self.embed
    }
}

impl<'a> From<EmbedBuilder<'a>> for Embed<'a> {
    fn from(builder: EmbedBuilder<'a>) -> (r: Self) {
        builder.build()
    }
}

impl<'a> vstd::std_specs::convert::FromSpecImpl<EmbedBuilder<'a>> for Embed<'a> {
    open spec fn obeys_from_spec() -> bool {
        true
    }

    open spec fn from_spec(builder: EmbedBuilder<'a>) -> Embed<'a> {
        builder@
    }
}

impl<'a> From<&'a str> for Embed<'a> {
    /// A simple text embed: the text is the description.
    fn from(text: &'a str) -> (r: Self)
        ensures
            r.description == Some(TitanString::Borrowed(text)),
            (Embed { description: None, ..r }).is_blank(),
    {
        EmbedBuilder::new().description(text).build()
    }
}

impl<'a> vstd::std_specs::convert::FromSpecImpl<&'a str> for Embed<'a> {
    /// The embed holds a vector, which no closed-form value can name; the conversion's own
    /// `ensures` states what it gives.
    open spec fn obeys_from_spec() -> bool {
        false
    }

    open spec fn from_spec(text: &'a str) -> Embed<'a> {
        arbitrary()
    }
}

} // verus!
