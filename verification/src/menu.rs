//! Menu placement: published sides and alignments, the strict placement
//! sink's validated identifiers, and when placement is recomputed.
use vstd::prelude::*;
use vstd::string::*;

use crate::text::{ascii_alnum, is_ascii_alnum, str_eq};

verus! {

/// The side of the trigger that the content is placed on.
#[derive(Debug, Clone, Copy, PartialEq, Eq)]
pub enum PlacementSide {
    Top,
    Right,
    Bottom,
    Left,
}

/// The alignment of the content along the trigger's side.
#[derive(Debug, Clone, Copy, PartialEq, Eq)]
pub enum PlacementAlign {
    Start,
    Center,
    End,
}

/// The `data-side` value of a side.
pub open spec fn placement_side_text(side: PlacementSide) -> Seq<char> {
    match side {
        PlacementSide::Top => "top"@,
        PlacementSide::Right => "right"@,
        PlacementSide::Bottom => "bottom"@,
        PlacementSide::Left => "left"@,
    }
}

/// The `data-align` value of an alignment.
pub open spec fn placement_align_text(align: PlacementAlign) -> Seq<char> {
    match align {
        PlacementAlign::Start => "start"@,
        PlacementAlign::Center => "center"@,
        PlacementAlign::End => "end"@,
    }
}

/// Returns the placement side as a stable data attribute value.
pub fn placement_side_data_value(side: PlacementSide) -> (s: &'static str)
    ensures
        s@ == placement_side_text(side),
{
    match side {
        PlacementSide::Top => "top",
        PlacementSide::Right => "right",
        PlacementSide::Bottom => "bottom",
        PlacementSide::Left => "left",
    }
}

/// Returns the placement alignment as a stable data attribute value.
pub fn placement_align_data_value(align: PlacementAlign) -> (s: &'static str)
    ensures
        s@ == placement_align_text(align),
{
    match align {
        PlacementAlign::Start => "start",
        PlacementAlign::Center => "center",
        PlacementAlign::End => "end",
    }
}

/// Error returned while configuring or publishing a strict placement sink.
#[derive(Clone, Debug, Eq, PartialEq)]
pub enum PlacementSinkError {
    InvalidId,
    InvalidNonce,
    MissingAuthorization,
    DocumentUnavailable,
    HeadUnavailable,
    StylesheetUnavailable,
    DuplicateId,
}

/// A character that may follow the first one of a placement id.
pub open spec fn is_style_id_char(c: char) -> bool {
    is_ascii_alnum(c) || c == '-' || c == '_'
}

/// A stable placement id: 1 to 128 characters, an ASCII letter or digit
/// first, then ASCII letters, digits, `-` and `_`. Such an id is ASCII, so
/// its length in characters is its length in bytes.
pub open spec fn valid_style_id(s: Seq<char>) -> bool {
    &&& 0 < s.len() <= 128
    &&& is_ascii_alnum(s[0])
    &&& forall|i: int| 1 <= i < s.len() ==> #[trigger] is_style_id_char(s[i])
}

/// A character of a CSP nonce.
pub open spec fn is_nonce_char(c: char) -> bool {
    is_ascii_alnum(c) || c == '+' || c == '/' || c == '-' || c == '_' || c == '='
}

/// A CSP nonce: 1 to 512 characters, each an ASCII letter or digit or one
/// of `+ / - _ =`. Such a nonce is ASCII, so its length in characters is
/// its length in bytes.
pub open spec fn valid_nonce(s: Seq<char>) -> bool {
    &&& 0 < s.len() <= 512
    &&& forall|i: int| 0 <= i < s.len() ==> #[trigger] is_nonce_char(s[i])
}

/// Which placement ids are valid, character class by character class:
/// 1 to 128 characters, the first an ASCII digit or letter of either case,
/// the others ASCII digits, letters of either case, `-` or `_`.
pub proof fn lemma_style_id_accepts_ascii(s: Seq<char>)
    ensures
        valid_style_id(s) <==> {
            &&& 0 < s.len() <= 128
            &&& ('0' <= s[0] <= '9' || 'a' <= s[0] <= 'z' || 'A' <= s[0] <= 'Z')
            &&& forall|i: int|
                1 <= i < s.len() ==> ('0' <= #[trigger] s[i] <= '9' || 'a' <= s[i] <= 'z' || 'A'
                    <= s[i] <= 'Z' || s[i] == '-' || s[i] == '_')
        },
{
    if valid_style_id(s) {
        assert forall|i: int| 1 <= i < s.len() implies ('0' <= #[trigger] s[i] <= '9' || 'a'
            <= s[i] <= 'z' || 'A' <= s[i] <= 'Z' || s[i] == '-' || s[i] == '_') by {
            assert(is_style_id_char(s[i]));
        }
    }
    assert forall|i: int|
        1 <= i < s.len() && ('0' <= s[i] <= '9' || 'a' <= s[i] <= 'z' || 'A' <= s[i] <= 'Z'
            || s[i] == '-' || s[i] == '_') implies #[trigger] is_style_id_char(s[i]) by {}
}

/// Which nonces are valid, character class by character class: 1 to 512
/// characters, each an ASCII digit, a letter of either case, or one of
/// `+ / - _ =`.
pub proof fn lemma_nonce_accepts_base64(s: Seq<char>)
    ensures
        valid_nonce(s) <==> {
            &&& 0 < s.len() <= 512
            &&& forall|i: int|
                0 <= i < s.len() ==> ('0' <= #[trigger] s[i] <= '9' || 'a' <= s[i] <= 'z' || 'A'
                    <= s[i] <= 'Z' || s[i] == '+' || s[i] == '/' || s[i] == '-' || s[i] == '_'
                    || s[i] == '=')
        },
{
    if valid_nonce(s) {
        assert forall|i: int| 0 <= i < s.len() implies ('0' <= #[trigger] s[i] <= '9' || 'a'
            <= s[i] <= 'z' || 'A' <= s[i] <= 'Z' || s[i] == '+' || s[i] == '/' || s[i] == '-'
            || s[i] == '_' || s[i] == '=') by {
            assert(is_nonce_char(s[i]));
        }
    }
    assert forall|i: int|
        0 <= i < s.len() && ('0' <= s[i] <= '9' || 'a' <= s[i] <= 'z' || 'A' <= s[i] <= 'Z'
            || s[i] == '+' || s[i] == '/' || s[i] == '-' || s[i] == '_' || s[i] == '=') implies
        #[trigger] is_nonce_char(s[i]) by {}
}

/// A valid placement id cannot break out of the attribute selector and
/// rule that embed it: it holds no quote, backslash, bracket, brace,
/// semicolon, slash or white space.
pub proof fn lemma_style_id_is_selector_safe(s: Seq<char>)
    requires
        valid_style_id(s),
    ensures
        forall|i: int|
            0 <= i < s.len() ==> #[trigger] is_style_id_char(s[i]) && s[i] != '"' && s[i] != '\''
                && s[i] != '\\' && s[i] != '[' && s[i] != ']' && s[i] != '{' && s[i] != '}'
                && s[i] != ';' && s[i] != '/' && s[i] != ' ',
{
}

/// A valid nonce cannot break out of a `nonce` attribute or a CSP source
/// list: it holds no quote, semicolon, comma or white space.
pub proof fn lemma_nonce_is_csp_safe(s: Seq<char>)
    requires
        valid_nonce(s),
    ensures
        forall|i: int|
            0 <= i < s.len() ==> #[trigger] is_nonce_char(s[i]) && s[i] != '"' && s[i] != '\''
                && s[i] != ';' && s[i] != ',' && s[i] != ' ',
{
}

/// Validated stable component ID used by the strict placement adapter.
#[derive(Clone, Debug, Eq, PartialEq)]
pub struct PlacementStyleId(String);

impl View for PlacementStyleId {
    type V = Seq<char>;

    closed spec fn view(&self) -> Seq<char> {
        self.0@
    }
}

impl PlacementStyleId {
    /// Every id that `new` hands out is valid.
    pub closed spec fn wf(&self) -> bool {
        valid_style_id(self.0@)
    }

    /// Validates `value` as a stable placement id.
    pub fn new(value: &str) -> (r: Result<Self, PlacementSinkError>)
        ensures
            valid_style_id(value@) ==> r is Ok && r->Ok_0@ == value@ && r->Ok_0.wf(),
            r is Ok <==> {
                let s = value@;
                &&& 0 < s.len() <= 128
                &&& ('0' <= s[0] <= '9' || 'a' <= s[0] <= 'z' || 'A' <= s[0] <= 'Z')
                &&& forall|i: int|
                    1 <= i < s.len() ==> ('0' <= #[trigger] s[i] <= '9' || 'a' <= s[i] <= 'z'
                        || 'A' <= s[i] <= 'Z' || s[i] == '-' || s[i] == '_')
            },
            !valid_style_id(value@) ==> r == Err::<Self, PlacementSinkError>(
                PlacementSinkError::InvalidId,
            ),
    {
        proof {
            lemma_style_id_accepts_ascii(value@);
        }
        let n = value.unicode_len();
        if n == 0 || n > 128 || !ascii_alnum(value.get_char(0)) {
            return Err(PlacementSinkError::InvalidId);
        }
        let mut i: usize = 1;
        while i < n
            invariant
                n == value@.len(),
                1 <= i <= n,
                forall|k: int| 1 <= k < i ==> #[trigger] is_style_id_char(value@[k]),
            decreases n - i,
        {
            let c = value.get_char(i);
            if !(ascii_alnum(c) || c == '-' || c == '_') {
                assert(!is_style_id_char(value@[i as int]));
                return Err(PlacementSinkError::InvalidId);
            }
            i = i + 1;
        }
        Ok(PlacementStyleId(String::from_str(value)))
    }

    /// Returns the id.
    pub fn as_str(&self) -> (s: &str)
        ensures
            s@ == self@,
    {
        self.0.as_str()
    }
}

/// Validated CSP nonce applied to an owned strict placement stylesheet.
#[derive(Clone, Debug, Eq, PartialEq)]
pub struct PlacementStyleNonce(String);

impl View for PlacementStyleNonce {
    type V = Seq<char>;

    closed spec fn view(&self) -> Seq<char> {
        self.0@
    }
}

impl PlacementStyleNonce {
    /// Every nonce that `new` hands out is valid.
    pub closed spec fn wf(&self) -> bool {
        valid_nonce(self.0@)
    }

    /// Validates `value` as a CSP nonce.
    pub fn new(value: &str) -> (r: Result<Self, PlacementSinkError>)
        ensures
            valid_nonce(value@) ==> r is Ok && r->Ok_0@ == value@ && r->Ok_0.wf(),
            r is Ok <==> {
                let s = value@;
                &&& 0 < s.len() <= 512
                &&& forall|i: int|
                    0 <= i < s.len() ==> ('0' <= #[trigger] s[i] <= '9' || 'a' <= s[i] <= 'z'
                        || 'A' <= s[i] <= 'Z' || s[i] == '+' || s[i] == '/' || s[i] == '-'
                        || s[i] == '_' || s[i] == '=')
            },
            !valid_nonce(value@) ==> r == Err::<Self, PlacementSinkError>(
                PlacementSinkError::InvalidNonce,
            ),
    {
        proof {
            lemma_nonce_accepts_base64(value@);
        }
        let n = value.unicode_len();
        if n == 0 || n > 512 {
            return Err(PlacementSinkError::InvalidNonce);
        }
        let mut i: usize = 0;
        while i < n
            invariant
                n == value@.len(),
                i <= n,
                forall|k: int| 0 <= k < i ==> #[trigger] is_nonce_char(value@[k]),
            decreases n - i,
        {
            let c = value.get_char(i);
            if !(ascii_alnum(c) || c == '+' || c == '/' || c == '-' || c == '_' || c == '=') {
                assert(!is_nonce_char(value@[i as int]));
                return Err(PlacementSinkError::InvalidNonce);
            }
            i = i + 1;
        }
        Ok(PlacementStyleNonce(String::from_str(value)))
    }

    /// Returns the nonce.
    pub fn as_str(&self) -> (s: &str)
        ensures
            s@ == self@,
    {
        self.0.as_str()
    }
}

/// Strict stylesheet configuration for one stable component ID.
#[derive(Clone, Debug, Eq, PartialEq)]
pub struct StrictPlacementSink {
    id: PlacementStyleId,
    nonce: Option<PlacementStyleNonce>,
}

impl StrictPlacementSink {
    /// The component id.
    pub closed spec fn id_spec(&self) -> PlacementStyleId {
        self.id
    }

    /// The nonce that authorizes the stylesheet, if any.
    pub closed spec fn nonce_spec(&self) -> Option<PlacementStyleNonce> {
        self.nonce
    }

    /// A sink for `id` that is not yet authorized.
    pub fn new(id: PlacementStyleId) -> (r: Self)
        ensures
            r.id_spec() == id,
            r.nonce_spec() == None::<PlacementStyleNonce>,
    {
        StrictPlacementSink { id, nonce: None }
    }

    /// Authorizes the sink's stylesheet with `nonce`.
    pub fn authorized(self, nonce: PlacementStyleNonce) -> (r: Self)
        ensures
            r.id_spec() == self.id_spec(),
            r.nonce_spec() == Some(nonce),
    {
        StrictPlacementSink { id: self.id, nonce: Some(nonce) }
    }

    /// Returns the component id.
    pub fn id(&self) -> (r: &PlacementStyleId)
        ensures
            *r == self.id_spec(),
    {
        &self.id
    }

    /// Returns the nonce, if the sink is authorized.
    pub fn nonce(&self) -> (r: Option<&PlacementStyleNonce>)
        ensures
            match self.nonce_spec() {
                Some(n) => r == Some(&n),
                None => r is None,
            },
    {
        match &self.nonce {
            Some(n) => Some(n),
            None => None,
        }
    }
}

/// Publication adapter selected for dynamic placement coordinates.
#[derive(Clone, Debug, Eq, PartialEq)]
pub enum PlacementSink {
    InlineStyle,
    StrictStylesheet(StrictPlacementSink),
}

impl Default for PlacementSink {
    fn default() -> (r: Self)
        ensures
            r == PlacementSink::InlineStyle,
    {
        PlacementSink::InlineStyle
    }
}

impl PlacementSink {
    /// Returns the stable strict-placement ID, when that adapter is selected.
    pub fn strict_id(&self) -> (r: Option<&PlacementStyleId>)
        ensures
            match self {
                PlacementSink::InlineStyle => r is None,
                PlacementSink::StrictStylesheet(sink) => r == Some(&sink.id_spec()),
            },
    {
        match self {
            PlacementSink::InlineStyle => None,
            PlacementSink::StrictStylesheet(sink) => Some(sink.id()),
        }
    }
}

/// Publishing to a strict sink needs its nonce: without one, nothing in the
/// document changes and `MissingAuthorization` is returned.
pub fn strict_placement_nonce(sink: &StrictPlacementSink) -> (r: Result<
    &PlacementStyleNonce,
    PlacementSinkError,
>)
    ensures
        match sink.nonce_spec() {
            Some(n) => r == Ok::<&PlacementStyleNonce, PlacementSinkError>(&n),
            None => r == Err::<&PlacementStyleNonce, PlacementSinkError>(
                PlacementSinkError::MissingAuthorization,
            ),
        },
{
    match sink.nonce() {
        Some(n) => Ok(n),
        None => Err(PlacementSinkError::MissingAuthorization),
    }
}

/// How a publication reaches its stylesheet.
#[derive(Clone, Copy, Debug, Eq, PartialEq)]
pub enum StrictStylesheetStep {
    /// Create the stylesheet for this id and own it.
    Create,
    /// Write into the stylesheet already owned for this id.
    Reuse,
}

/// Decides how a strict publication reaches its stylesheet. `owned` is the
/// id of the stylesheet this binding already owns, if any; `foreign_exists`
/// says whether the document already holds a stylesheet for the sink's id,
/// which matters only when nothing is owned yet. An id that another
/// stylesheet already uses, or that differs from the owned one, is a
/// `DuplicateId`.
pub fn strict_placement_stylesheet_step(
    sink_id: &PlacementStyleId,
    owned: Option<&PlacementStyleId>,
    foreign_exists: bool,
) -> (r: Result<StrictStylesheetStep, PlacementSinkError>)
    ensures
        match owned {
            None => r == (if foreign_exists {
                Err(PlacementSinkError::DuplicateId)
            } else {
                Ok(StrictStylesheetStep::Create)
            }),
            Some(id) => r == (if id@ == sink_id@ {
                Ok(StrictStylesheetStep::Reuse)
            } else {
                Err(PlacementSinkError::DuplicateId)
            }),
        },
{
    match owned {
        None => {
            if foreign_exists {
                Err(PlacementSinkError::DuplicateId)
            } else {
                Ok(StrictStylesheetStep::Create)
            }
        },
        Some(id) => {
            if str_eq(id.as_str(), sink_id.as_str()) {
                Ok(StrictStylesheetStep::Reuse)
            } else {
                Err(PlacementSinkError::DuplicateId)
            }
        },
    }
}

/// What the placement effect does when its inputs change.
#[derive(Clone, Copy, Debug, Eq, PartialEq)]
pub enum MenuPlacementUpdateAction {
    /// Forget the published placement.
    Clear,
    /// Keep the published placement.
    Retain,
    /// Recompute the placement on the next animation frame.
    AnimationFrame,
}

/// Decides the placement effect: without content there is nothing to
/// place; an open menu with both elements is placed on the next frame;
/// otherwise the last placement stays.
pub fn menu_placement_update_action(open: bool, trigger_loaded: bool, content_loaded: bool) -> (a:
    MenuPlacementUpdateAction)
    ensures
        a == (if !content_loaded {
            MenuPlacementUpdateAction::Clear
        } else if open && trigger_loaded {
            MenuPlacementUpdateAction::AnimationFrame
        } else {
            MenuPlacementUpdateAction::Retain
        }),
{
    if !content_loaded {
        return MenuPlacementUpdateAction::Clear;
    }
    if open && trigger_loaded {
        return MenuPlacementUpdateAction::AnimationFrame;
    }
    MenuPlacementUpdateAction::Retain
}

} // verus!
