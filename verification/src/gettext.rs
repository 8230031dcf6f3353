//! Message lookups in a gettext text domain. A `Translation` records whether
//! its text is the answer of a lookup, and of which message in which domain;
//! only the lookup itself, `tr`, can say that it was one.
use vstd::prelude::*;

verus! {

#[verifier::external_type_specification]
#[verifier::external_body]
pub struct ExIoError(std::io::Error);

/// A gettext text domain, with the codeset its translations are handed over
/// in.
pub struct Catalogue {
    domain: String,
    codeset: Ghost<Seq<char>>,
}

/// A message as shown.
pub struct Translation {
    text: String,
    lookup: Ghost<Option<(Seq<char>, Seq<char>)>>,
    answer: Ghost<Seq<char>>,
}

/// A message without NUL characters, which gettext accepts.
pub open spec fn translatable(s: Seq<char>) -> bool {
    !s.contains('\0')
}

/// `gettextrs::bind_textdomain_codeset`: sets the character set in which
/// gettext hands over the translations of `domain`, and on success answers
/// with the codeset now bound; the catalogue then records the domain and the
/// codeset that were handed over. It panics on a NUL character in either
/// argument, which `requires` rules out; the codeset it answers with is the
/// one handed over, valid UTF-8 for a `&str`. Whether the call succeeds is
/// not stated.
#[verifier::external_body]
fn bind_codeset(domain: String, codeset: &str) -> (r: Result<Option<Catalogue>, std::io::Error>)
    requires
        translatable(domain@),
        translatable(codeset@),
    ensures
        r matches Ok(Some(c)) ==> c.domain@ == domain@ && c.codeset@ == codeset@,
{
    match gettextrs::bind_textdomain_codeset(domain.as_str(), codeset) {
        Ok(Some(_)) => Ok(Some(Catalogue { domain, codeset: Ghost(codeset@) })),
        Ok(None) => Ok(None),
        Err(e) => Err(e),
    }
}

/// `gettextrs::dgettext`: the translation of `message` in the catalogue's
/// text domain and the current locale, or the message itself. What it
/// answers depends on the process's locale and the installed catalogues, so
/// the answer is only recorded, not stated; what is stated is that this
/// message was looked up in this domain, and that the text is the answer. It
/// panics on a NUL character, which `requires` rules out, and on an answer
/// that is not UTF-8, which the catalogue's codeset rules out: where it is
/// UTF-8, gettext converts every translation to UTF-8, and without a
/// translation the message itself, a Rust string, comes back.
#[verifier::external_body]
pub fn tr(catalogue: &Catalogue, message: &str) -> (r: Translation)
    requires
        translatable(message@),
        catalogue.codeset() == "UTF-8"@,
    ensures
        r.lookup() == Some((message@, catalogue.domain_name())),
        r.answer() == r.text_view(),
{
    let text = gettextrs::dgettext(catalogue.domain.as_str(), message);
    Translation { answer: Ghost(text@), lookup: Ghost(Some((message@, catalogue.domain@))), text }
}

impl Catalogue {
    /// The text domain.
    pub closed spec fn domain_name(&self) -> Seq<char> {
        self.domain@
    }

    /// The codeset bound for the domain when the catalogue was opened.
    pub closed spec fn codeset(&self) -> Seq<char> {
        self.codeset@
    }

    /// The text domain.
    pub fn domain(&self) -> (r: &str)
        ensures
            r@ == self.domain_name(),
    {
        self.domain.as_str()
    }

    /// Binds the codeset of `domain` to UTF-8 and gives the catalogue of that
    /// domain; `None` where the domain holds a NUL character, or where gettext
    /// refuses the codeset.
    pub fn open(domain: &str) -> (r: Option<Catalogue>)
        ensures
            r matches Some(c) ==> c.domain_name() == domain@ && c.codeset() == "UTF-8"@,
            !translatable(domain@) ==> r is None,
    {
        if !no_nul(domain) {
            return None;
        }
        let utf8 = "UTF-8";
        proof {
            reveal_strlit("UTF-8");
        }
        let mut d = String::new();
        d.append(domain);
        match bind_codeset(d, utf8) {
            Ok(Some(c)) => Some(c),
            Ok(None) => None,
            Err(_) => None,
        }
    }
}

impl Translation {
    /// The text to show.
    pub closed spec fn text_view(&self) -> Seq<char> {
        self.text@
    }

    /// The message and the text domain it was looked up in, or `None` where
    /// no lookup was made.
    pub closed spec fn lookup(&self) -> Option<(Seq<char>, Seq<char>)> {
        self.lookup@
    }

    /// What the lookup answered; where none was made, the message itself.
    pub closed spec fn answer(&self) -> Seq<char> {
        self.answer@
    }

    /// A message shown as it is, without a lookup.
    pub fn untranslated(message: &str) -> (r: Translation)
        ensures
            r.lookup() is None,
            r.text_view() == message@,
            r.answer() == message@,
    {
        let text = message.to_owned();
        Translation { answer: Ghost(text@), lookup: Ghost(None), text }
    }

    /// Appends `suffix` to the text shown; the lookup and its answer stay.
    pub fn append(&mut self, suffix: &str)
        ensures
            final(self).text_view() == old(self).text_view() + suffix@,
            final(self).lookup() == old(self).lookup(),
            final(self).answer() == old(self).answer(),
    {
        self.text.append(suffix);
    }

    /// The text to show.
    pub fn text(&self) -> (r: &str)
        ensures
            r@ == self.text_view(),
    {
        self.text.as_str()
    }

    /// The text to show, taken out.
    pub fn into_text(self) -> (r: String)
        ensures
            r@ == self.text_view(),
    {
        self.text
    }
}

/// Whether a text holds no NUL character.
pub fn no_nul(s: &str) -> (b: bool)
    ensures
        b == translatable(s@),
{
    let v = crate::text::chars_of(s);
    let mut i: usize = 0;
    while i < v.len()
        invariant
            v@ == s@,
            i <= v@.len(),
            forall|k: int| 0 <= k < i ==> v@[k] != '\0',
        decreases v.len() - i,
    {
        if v[i] == '\0' {
            assert(s@.contains('\0'));
            return false;
        }
        i += 1;
    }
    true
}

/// Translates a message: one without NUL characters is looked up in the
/// catalogue's domain, one with them, which gettext cannot take, is shown as
/// it is.
pub fn translate(catalogue: &Catalogue, message: &str) -> (r: Translation)
    requires
        catalogue.codeset() == "UTF-8"@,
    ensures
        translatable(message@) ==> r.lookup() == Some((message@, catalogue.domain_name())),
        !translatable(message@) ==> r.lookup() is None && r.text_view() == message@,
        r.answer() == r.text_view(),
{
    if no_nul(message) {
        tr(catalogue, message)
    } else {
        Translation::untranslated(message)
    }
}

} // verus!
