use vstd::prelude::*;

verus! {

/// An sRGB color with 8-bit channels, as written in a hex code.
#[derive(Clone, Copy, Debug, PartialEq, Eq, Structural)]
pub struct Rgb8 {
    pub red: u8,
    pub green: u8,
    pub blue: u8,
}

/// The value of a hexadecimal digit, either case.
pub open spec fn hex_digit_value(c: char) -> Option<nat> {
    if '0' <= c && c <= '9' {
        Some((c as nat - '0' as nat) as nat)
    } else if 'a' <= c && c <= 'f' {
        Some((c as nat - 'a' as nat + 10) as nat)
    } else if 'A' <= c && c <= 'F' {
        Some((c as nat - 'A' as nat + 10) as nat)
    } else {
        None
    }
}

/// The digits of a hex code: the text after one optional leading `#`.
pub open spec fn hex_digits(s: Seq<char>) -> Seq<char> {
    if s.len() > 0 && s[0] == '#' {
        s.drop_first()
    } else {
        s
    }
}

/// A hex code: an optional `#`, then three or six hexadecimal digits.
pub open spec fn is_hex_code(s: Seq<char>) -> bool {
    let d = hex_digits(s);
    &&& d.len() == 3 || d.len() == 6
    &&& forall|i: int| 0 <= i < d.len() ==> (#[trigger] hex_digit_value(d[i])) is Some
}

pub open spec fn digit(d: Seq<char>, i: int) -> nat {
    hex_digit_value(d[i])->Some_0
}

/// The color that a hex code names: `#rgb` repeats each digit (`#fa0` is
/// `#ffaa00`), `#rrggbb` gives each channel as two digits.
pub open spec fn hex_code_value(s: Seq<char>) -> Rgb8 {
    let d = hex_digits(s);
    if d.len() == 3 {
        Rgb8 {
            red: (digit(d, 0) * 17) as u8,
            green: (digit(d, 1) * 17) as u8,
            blue: (digit(d, 2) * 17) as u8,
        }
    } else {
        Rgb8 {
            red: (digit(d, 0) * 16 + digit(d, 1)) as u8,
            green: (digit(d, 2) * 16 + digit(d, 3)) as u8,
            blue: (digit(d, 4) * 16 + digit(d, 5)) as u8,
        }
    }
}

/// Relies on palette's `FromStr for Rgb<Srgb, u8>`: it strips one leading
/// `#` and reads three digits (each times 17) or six digits (two per
/// channel) with `u8::from_str_radix` in base 16.
#[verifier::external_body]
fn parse_hex_code(s: &str) -> (r: Option<Rgb8>)
    requires
        is_hex_code(s@),
    ensures
        r == Some(hex_code_value(s@)),
{
    <palette::rgb::Rgb<palette::encoding::Srgb, u8> as std::str::FromStr>::from_str(s).ok().map(
        |c| Rgb8 { red: c.red, green: c.green, blue: c.blue },
    )
}

fn is_hex_digit(c: char) -> (r: bool)
    ensures
        r == hex_digit_value(c) is Some,
{
    ('0' <= c && c <= '9') || ('a' <= c && c <= 'f') || ('A' <= c && c <= 'F')
}

/// Reads a hex code such as `#e6ebf2` or `#fff`; `None` for any other text.
pub fn rgb(s: &str) -> (r: Option<Rgb8>)
    ensures
        r == (if is_hex_code(s@) {
            Some(hex_code_value(s@))
        } else {
            None
        }),
{
    let n = s.unicode_len();
    if n == 0 || n > 7 {
        return None;
    }
    let start: usize = if s.get_char(0) == '#' {
        1
    } else {
        0
    };
    let count: usize = n - start;
    if count != 3 && count != 6 {
        return None;
    }
    let ghost d = hex_digits(s@);
    assert(d =~= s@.subrange(start as int, n as int));
    let mut i: usize = start;
    while i < n
        invariant
            start <= i <= n,
            n == s@.len(),
            d =~= s@.subrange(start as int, n as int),
            d == hex_digits(s@),
            forall|k: int| 0 <= k < i - start ==> (#[trigger] hex_digit_value(d[k])) is Some,
        decreases n - i,
    {
        if !is_hex_digit(s.get_char(i)) {
            let ghost k: int = i - start;
            assert(s@[i as int] == d[k]);
            assert(hex_digit_value(d[k]) is None);
            assert(!is_hex_code(s@));
            return None;
        }
        i = i + 1;
    }
    parse_hex_code(s)
}

/// A color from a hex code written in this file.
fn hex(s: &str) -> (r: Rgb8)
    requires
        is_hex_code(s@),
    ensures
        r == hex_code_value(s@),
{
    rgb(s).unwrap()
}

/// The background colors of a theme, one per role.
#[derive(Clone, Copy, Debug, PartialEq, Eq)]
pub struct BackgroundColors<C> {
    pub main: C,
    /// Selection made with the mouse in a text view.
    pub range_selection: C,
    /// Selection made through the line-number gutter.
    pub line_selection: C,
    pub git_added: C,
    pub git_line_selection: C,
    pub git_deleted: C,
}

impl<C: Copy> BackgroundColors<C> {
    /// How many backgrounds take part in the cost model.
    pub const COUNT: usize = 2;

    /// How many of those the search may change.
    pub const MODIFIABLE_COUNT: usize = 1;

    /// The backgrounds that take part in the cost model: the main one and
    /// the line selection.
    pub fn into_array(&self) -> (r: [C; 2])
        ensures
            r@ == seq![self.main, self.line_selection],
    {
        [self.main, self.line_selection]
    }

    /// The backgrounds that the search may change: the line selection.
    pub fn updateable_array(&self) -> (r: [C; 1])
        ensures
            r@ == seq![self.line_selection],
    {
        [self.line_selection]
    }

    /// Writes the modifiable backgrounds back, in the order of
    /// [`BackgroundColors::updateable_array`].
    pub fn update(&mut self, new: [C; 1])
        ensures
            *final(self) == (BackgroundColors { line_selection: new[0], ..*old(self) }),
            final(self).updateable_array_view() == new@,
    {
        self.line_selection = new[0];
    }

    pub open spec fn updateable_array_view(self) -> Seq<C> {
        seq![self.line_selection]
    }

    pub open spec fn spec_contrast_pairs(self) -> Seq<(C, C)> {
        seq![
            (self.main, self.range_selection),
            (self.main, self.line_selection),
            (self.main, self.git_added),
            (self.main, self.git_line_selection),
            (self.main, self.git_deleted),
            (self.range_selection, self.line_selection),
            (self.range_selection, self.git_added),
            (self.range_selection, self.git_line_selection),
            (self.range_selection, self.git_deleted),
            (self.git_added, self.git_line_selection),
            (self.git_added, self.git_deleted),
            (self.git_line_selection, self.git_deleted),
        ]
    }

    /// The pairs of roles whose contrast is held to the background minimum:
    /// the main background against every other role, the range selection
    /// against the line selection and the git roles, and the git roles
    /// against each other.
    pub fn contrast_pairs(&self) -> (r: Vec<(C, C)>)
        ensures
            r@ == self.spec_contrast_pairs(),
    {
        let r = vec![
            (self.main, self.range_selection),
            (self.main, self.line_selection),
            (self.main, self.git_added),
            (self.main, self.git_line_selection),
            (self.main, self.git_deleted),
            (self.range_selection, self.line_selection),
            (self.range_selection, self.git_added),
            (self.range_selection, self.git_line_selection),
            (self.range_selection, self.git_deleted),
            (self.git_added, self.git_line_selection),
            (self.git_added, self.git_deleted),
            (self.git_line_selection, self.git_deleted),
        ];
        assert(r@ =~= self.spec_contrast_pairs());
        r
    }
}

/// A theme's brightness.
#[derive(Clone, Copy, Debug, PartialEq, Eq, Structural)]
pub enum Mode {
    Light,
    Dark,
}

/// A row of the brand palette.
#[derive(Clone, Copy, Debug, PartialEq, Eq, Structural)]
pub enum Shade {
    Mist,
    Light,
    Medium,
    Dark,
}

impl Shade {
    pub open spec fn spec_key(self) -> &'static str {
        match self {
            Shade::Mist => "mist",
            Shade::Light => "light",
            Shade::Medium => "medium",
            Shade::Dark => "dark",
        }
    }

    /// The name of this row in the brand palette.
    pub fn key(self) -> (r: &'static str)
        ensures
            r == self.spec_key(),
    {
        match self {
            Shade::Mist => "mist",
            Shade::Light => "light",
            Shade::Medium => "medium",
            Shade::Dark => "dark",
        }
    }

    pub open spec fn spec_colors(self) -> Seq<Rgb8> {
        match self {
            Shade::Mist => seq![
                hex_code_value("#fff2cf"@),
                hex_code_value("#ffc9c9"@),
                hex_code_value("#ffd1f2"@),
                hex_code_value("#e8d1ff"@),
                hex_code_value("#bfbfff"@),
                hex_code_value("#c7ffff"@),
                hex_code_value("#c4ffe8"@),
            ],
            Shade::Light => seq![
                hex_code_value("#ffdb45"@),
                hex_code_value("#ff5543"@),
                hex_code_value("#d62687"@),
                hex_code_value("#a112ff"@),
                hex_code_value("#6b59ed"@),
                hex_code_value("#00cbec"@),
                hex_code_value("#8fedcf"@),
            ],
            Shade::Medium => seq![
                hex_code_value("#ffc247"@),
                hex_code_value("#ed2e20"@),
                hex_code_value("#c4147d"@),
                hex_code_value("#820dde"@),
                hex_code_value("#5033E1"@),
                hex_code_value("#00a1c7"@),
                hex_code_value("#17ab52"@),
            ],
            Shade::Dark => seq![
                hex_code_value("#ff9933"@),
                hex_code_value("#c22626"@),
                hex_code_value("#9e1769"@),
                hex_code_value("#6112a3"@),
                hex_code_value("#3826cc"@),
                hex_code_value("#005482"@),
                hex_code_value("#1f7d45"@),
            ],
        }
    }

    /// The brand colors of this row, in a fixed order.
    pub fn colors(self) -> (r: Vec<Rgb8>)
        ensures
            r@ == self.spec_colors(),
    {
        match self {
            Shade::Mist => mist_colors(),
            Shade::Light => light_colors(),
            Shade::Medium => medium_colors(),
            Shade::Dark => dark_colors(),
        }
    }
}

fn mist_colors() -> (r: Vec<Rgb8>)
    ensures
        r@ == Shade::Mist.spec_colors(),
{
    proof {
        reveal_strlit("#fff2cf");
        reveal_strlit("#ffc9c9");
        reveal_strlit("#ffd1f2");
        reveal_strlit("#e8d1ff");
        reveal_strlit("#bfbfff");
        reveal_strlit("#c7ffff");
        reveal_strlit("#c4ffe8");
    }
    let r = vec![
        hex("#fff2cf"),  // yellow mist
        hex("#ffc9c9"),  // orange mist
        hex("#ffd1f2"),  // pink mist
        hex("#e8d1ff"),  // violet mist
        hex("#bfbfff"),  // plum mist
        hex("#c7ffff"),  // blue mist
        hex("#c4ffe8"),  // green mist
    ];
    assert(r@ =~= Shade::Mist.spec_colors());
    r
}

fn light_colors() -> (r: Vec<Rgb8>)
    ensures
        r@ == Shade::Light.spec_colors(),
{
    proof {
        reveal_strlit("#ffdb45");
        reveal_strlit("#ff5543");
        reveal_strlit("#d62687");
        reveal_strlit("#a112ff");
        reveal_strlit("#6b59ed");
        reveal_strlit("#00cbec");
        reveal_strlit("#8fedcf");
    }
    let r = vec![
        hex("#ffdb45"),  // lemon
        hex("#ff5543"),  // vermillion
        hex("#d62687"),  // cerise
        hex("#a112ff"),  // vivid violet
        hex("#6b59ed"),  // plum
        hex("#00cbec"),  // sky blue
        hex("#8fedcf"),  // mint
    ];
    assert(r@ =~= Shade::Light.spec_colors());
    r
}

fn medium_colors() -> (r: Vec<Rgb8>)
    ensures
        r@ == Shade::Medium.spec_colors(),
{
    proof {
        reveal_strlit("#ffc247");
        reveal_strlit("#ed2e20");
        reveal_strlit("#c4147d");
        reveal_strlit("#820dde");
        reveal_strlit("#5033E1");
        reveal_strlit("#00a1c7");
        reveal_strlit("#17ab52");
    }
    let r = vec![
        hex("#ffc247"),  // orange
        hex("#ed2e20"),  // pomegranate
        hex("#c4147d"),  // red violet
        hex("#820dde"),  // electric violet
        hex("#5033E1"),  // blurple
        hex("#00a1c7"),  // pacific blue
        hex("#17ab52"),  // mountain meadow
    ];
    assert(r@ =~= Shade::Medium.spec_colors());
    r
}

fn dark_colors() -> (r: Vec<Rgb8>)
    ensures
        r@ == Shade::Dark.spec_colors(),
{
    proof {
        reveal_strlit("#ff9933");
        reveal_strlit("#c22626");
        reveal_strlit("#9e1769");
        reveal_strlit("#6112a3");
        reveal_strlit("#3826cc");
        reveal_strlit("#005482");
        reveal_strlit("#1f7d45");
    }
    let r = vec![
        hex("#ff9933"),  // carrot
        hex("#c22626"),  // poppy
        hex("#9e1769"),  // disco
        hex("#6112a3"),  // seance
        hex("#3826cc"),  // persian blue
        hex("#005482"),  // orient
        hex("#1f7d45"),  // eucalyptus
    ];
    assert(r@ =~= Shade::Dark.spec_colors());
    r
}

impl Mode {
    pub open spec fn spec_bg_colors(self) -> BackgroundColors<Rgb8> {
        match self {
            Mode::Dark => BackgroundColors {
                main: hex_code_value("#1d212f"@),
                range_selection: hex_code_value("#886547"@),
                line_selection: hex_code_value("#343a4d"@),
                git_added: hex_code_value("#224035"@),
                git_line_selection: hex_code_value("#14171f"@),
                git_deleted: hex_code_value("#3e1d1d"@),
            },
            Mode::Light => BackgroundColors {
                main: hex_code_value("#ffffff"@),
                range_selection: hex_code_value("#fedabd"@),
                line_selection: hex_code_value("#e6ebf2"@),
                git_added: hex_code_value("#eeffec"@),
                git_line_selection: hex_code_value("#e6ebf2"@),
                git_deleted: hex_code_value("#ffecec"@),
            },
        }
    }

    /// The reference backgrounds of this theme.
    pub fn bg_colors(self) -> (r: BackgroundColors<Rgb8>)
        ensures
            r == self.spec_bg_colors(),
    {
        match self {
            Mode::Dark => {
                proof {
                    reveal_strlit("#1d212f");
                    reveal_strlit("#886547");
                    reveal_strlit("#343a4d");
                    reveal_strlit("#224035");
                    reveal_strlit("#14171f");
                    reveal_strlit("#3e1d1d");
                }
                BackgroundColors {
                    main: hex("#1d212f"),
                    range_selection: hex("#886547"),
                    line_selection: hex("#343a4d"),
                    git_added: hex("#224035"),
                    git_line_selection: hex("#14171f"),
                    git_deleted: hex("#3e1d1d"),
                }
            },
            Mode::Light => {
                proof {
                    reveal_strlit("#ffffff");
                    reveal_strlit("#fedabd");
                    reveal_strlit("#e6ebf2");
                    reveal_strlit("#eeffec");
                    reveal_strlit("#e6ebf2");
                    reveal_strlit("#ffecec");
                }
                BackgroundColors {
                    main: hex("#ffffff"),
                    range_selection: hex("#fedabd"),
                    line_selection: hex("#e6ebf2"),
                    git_added: hex("#eeffec"),
                    git_line_selection: hex("#e6ebf2"),
                    git_deleted: hex("#ffecec"),
                }
            },
        }
    }

    pub open spec fn spec_brand_shades(self) -> Seq<Shade> {
        match self {
            Mode::Dark => seq![Shade::Light, Shade::Medium],
            Mode::Light => seq![Shade::Medium, Shade::Dark],
        }
    }

    /// The rows of the brand palette that this theme draws its foregrounds
    /// from: the light and medium rows on dark, medium and dark on light.
    pub fn brand_shades(self) -> (r: Vec<Shade>)
        ensures
            r@ == self.spec_brand_shades(),
    {
        let r = match self {
            Mode::Dark => vec![Shade::Light, Shade::Medium],
            Mode::Light => vec![Shade::Medium, Shade::Dark],
        };
        assert(r@ =~= self.spec_brand_shades());
        r
    }

    /// The names of the rows of [`Mode::brand_shades`], in order.
    pub fn brand_color_keys(self) -> (r: Vec<&'static str>)
        ensures
            r@ == self.spec_brand_shades().map_values(|s: Shade| s.spec_key()),
    {
        let shades = self.brand_shades();
        let mut r: Vec<&'static str> = Vec::new();
        let mut i: usize = 0;
        while i < shades.len()
            invariant
                i <= shades@.len(),
                shades@ == self.spec_brand_shades(),
                r@ =~= shades@.take(i as int).map_values(|s: Shade| s.spec_key()),
            decreases shades@.len() - i,
        {
            r.push(shades[i].key());
            i = i + 1;
            assert(shades@.take(i as int) =~= shades@.take(i - 1).push(shades@[i - 1]));
        }
        assert(shades@.take(i as int) =~= shades@);
        r
    }

    /// The foreground colors of this theme: the brand rows of
    /// [`Mode::brand_shades`], one after the other.
    pub fn brand_colors(self) -> (r: Vec<Rgb8>)
        ensures
            r@ == shade_colors(self.spec_brand_shades()),
    {
        let shades = self.brand_shades();
        let mut r: Vec<Rgb8> = Vec::new();
        let mut i: usize = 0;
        while i < shades.len()
            invariant
                i <= shades@.len(),
                shades@ == self.spec_brand_shades(),
                r@ == shade_colors(shades@.take(i as int)),
            decreases shades@.len() - i,
        {
            let row = shades[i].colors();
            let mut j: usize = 0;
            let ghost before = r@;
            while j < row.len()
                invariant
                    j <= row@.len(),
                    r@ =~= before + row@.take(j as int),
                decreases row@.len() - j,
            {
                r.push(row[j]);
                j = j + 1;
            }
            assert(row@.take(j as int) =~= row@);
            i = i + 1;
            assert(shades@.take(i as int).drop_last() =~= shades@.take(i - 1));
        }
        assert(shades@.take(i as int) =~= shades@);
        r
    }
}

/// The colors of several brand rows, one row after the other.
pub open spec fn shade_colors(shades: Seq<Shade>) -> Seq<Rgb8>
    decreases shades.len(),
{
    if shades.len() == 0 {
        Seq::empty()
    } else {
        shade_colors(shades.drop_last()) + shades.last().spec_colors()
    }
}

} // verus!
