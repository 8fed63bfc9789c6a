//! The accent color of the desktop, as a CSS hex string.
//!
//! The operating system reports its colorization value as one packed
//! integer; what the views need is the `#rrggbb` string for the color's red,
//! green and blue channels.  The runtime polls the OS value on a timer and
//! feeds it through `observe_accent_color`; a reported change is what makes
//! it announce the new color to the views.

use vstd::prelude::*;

verus! {

/// The sixteen lowercase hexadecimal digits, in value order.
pub open spec fn hex_digit(nibble: u8) -> char
    recommends
        nibble < 16,
{
    seq!['0', '1', '2', '3', '4', '5', '6', '7', '8', '9', 'a', 'b', 'c', 'd', 'e', 'f'][nibble as int]
}

/// The lowercase hexadecimal rendering of a byte string: two digits per
/// byte, high nibble first.
pub open spec fn hex_of(bytes: Seq<u8>) -> Seq<char>
    decreases bytes.len(),
{
    if bytes.len() == 0 {
        Seq::empty()
    } else {
        hex_of(bytes.drop_last()) + seq![
            hex_digit(bytes.last() / 16),
            hex_digit(bytes.last() % 16),
        ]
    }
}

/// The red, green and blue channel bytes of a packed colorization value,
/// dropping the alpha channel in the top byte.
pub open spec fn rgb_bytes(colorization: u32) -> Seq<u8> {
    seq![
        ((colorization >> 16) & 0xff) as u8,
        ((colorization >> 8) & 0xff) as u8,
        (colorization & 0xff) as u8,
    ]
}

/// Relies on hex::encode: two lowercase hexadecimal digits for each input
/// byte, high nibble first, in input order.
#[verifier::external_body]
fn hex_encode(bytes: &Vec<u8>) -> (r: String)
    ensures
        r@ == hex_of(bytes@),
{
    hex::encode(bytes)
}

/// Render a packed colorization value as the CSS color of its red, green and
/// blue channels.
pub fn accent_color_hex(colorization: u32) -> (r: String)
    ensures
        r@ == "#"@ + hex_of(rgb_bytes(colorization)),
{
    proof {
        assert((colorization >> 16) & 0xff < 256) by (bit_vector);
        assert((colorization >> 8) & 0xff < 256) by (bit_vector);
        assert(colorization & 0xff < 256) by (bit_vector);
    }
    let mut rgb: Vec<u8> = Vec::new();
    rgb.push(((colorization >> 16) & 0xff) as u8);
    rgb.push(((colorization >> 8) & 0xff) as u8);
    rgb.push((colorization & 0xff) as u8);
    proof {
        assert(rgb@ =~= rgb_bytes(colorization));
    }

    let rgb_string = hex_encode(&rgb);

    let mut r = String::from_str("#");
    r.append(rgb_string.as_str());
    r
}

/// The last accent color handed to the views, kept to detect changes
/// between two polls.
pub struct AccentColorProvider {
    pub accent_color: String,
}

impl AccentColorProvider {
    pub fn new(initial_accent_color: String) -> (r: AccentColorProvider)
        ensures
            r.accent_color@ == initial_accent_color@,
    {
        AccentColorProvider { accent_color: initial_accent_color }
    }

    /// The color as last observed.
    pub fn accent_color(&self) -> (r: String)
        ensures
            r@ == self.accent_color@,
    {
        self.accent_color.clone()
    }

    /// Take one polled color: remember it, and report whether it differs
    /// from the one before — exactly then the new color is announced.
    pub fn observe_accent_color(&mut self, fetched_accent_color: String) -> (changed: bool)
        ensures
            final(self).accent_color@ == fetched_accent_color@,
            changed == (old(self).accent_color@ != fetched_accent_color@),
    {
        let changed = !(self.accent_color == fetched_accent_color);
        self.accent_color = fetched_accent_color;
        changed
    }
}

} // verus!
