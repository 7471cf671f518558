//! Translations: placeholders in messages, replaced by the words of the
//! reader's locale.
use vstd::prelude::*;

use crate::srvpru::name_map::NameMap;
use crate::text::{chars_of, replace_all, replace_chars, string_of};

verus! {

/// Placeholders and their texts, in the order they are replaced.
#[derive(Debug)]
pub struct Words {
    pub pairs: Vec<(String, String)>,
}

pub open spec fn pairs_view(v: Seq<(String, String)>) -> Seq<(Seq<char>, Seq<char>)> {
    v.map_values(|p: (String, String)| (p.0@, p.1@))
}

impl View for Words {
    type V = Seq<(Seq<char>, Seq<char>)>;

    open spec fn view(&self) -> Seq<(Seq<char>, Seq<char>)> {
        pairs_view(self.pairs@)
    }
}

/// The placeholder of a word: the word in braces.
pub open spec fn placeholder(word: Seq<char>) -> Seq<char> {
    seq!['{'] + word + seq!['}']
}

/// The words of a locale as placeholders and texts.
pub open spec fn placeholders(words: Seq<(Seq<char>, Seq<char>)>) -> Seq<(Seq<char>, Seq<char>)> {
    words.map_values(|p: (Seq<char>, Seq<char>)| (placeholder(p.0), p.1))
}

pub open spec fn library_view(v: Seq<(String, Vec<(String, String)>)>) -> Seq<(Seq<char>, Seq<(Seq<char>, Seq<char>)>)> {
    v.map_values(|p: (String, Vec<(String, String)>)| (p.0@, pairs_view(p.1@)))
}

/// The translations of a library, by locale; a locale named twice keeps
/// its last words.
pub open spec fn spec_load(lib: Seq<(Seq<char>, Seq<(Seq<char>, Seq<char>)>)>) -> Map<Seq<char>, Seq<(Seq<char>, Seq<char>)>>
    decreases lib.len(),
{
    if lib.len() == 0 {
        Map::empty()
    } else {
        spec_load(lib.drop_last()).insert(lib.last().0, placeholders(lib.last().1))
    }
}

/// `template` with the placeholders of `words` replaced, in order.
pub open spec fn render_with(template: Seq<char>, words: Seq<(Seq<char>, Seq<char>)>) -> Seq<char>
    decreases words.len(),
{
    if words.len() == 0 {
        template
    } else {
        replace_all(render_with(template, words.drop_last()), words.last().0, words.last().1)
    }
}

/// `template` translated for `locale`; unchanged for a locale without
/// words.
pub open spec fn spec_render(lib: Map<Seq<char>, Seq<(Seq<char>, Seq<char>)>>, template: Seq<char>, locale: Seq<char>) -> Seq<char> {
    if lib.contains_key(locale) { render_with(template, lib[locale]) } else { template }
}

/// The translations of every locale.
#[derive(Debug)]
pub struct I18n {
    library: NameMap<Words>,
}

impl View for I18n {
    type V = Map<Seq<char>, Seq<(Seq<char>, Seq<char>)>>;

    closed spec fn view(&self) -> Map<Seq<char>, Seq<(Seq<char>, Seq<char>)>> {
        self.library.map()
    }
}

impl I18n {
    pub closed spec fn wf(&self) -> bool {
        self.library.wf()
    }

    /// A library of translations: each locale's words become placeholders.
    pub fn load_configuration(library: Vec<(String, Vec<(String, String)>)>) -> (r: I18n)
        ensures
            r.wf(),
            r@ == spec_load(library_view(library@)),
    {
        let ghost lv = library_view(library@);
        let mut map: NameMap<Words> = NameMap::new();
        let mut i: usize = 0;
        while i < library.len()
            invariant
                lv == library_view(library@),
                i <= library@.len(),
                map.wf(),
                map.map() == spec_load(lv.take(i as int)),
            decreases library@.len() - i,
        {
            proof {
                assert(lv.take(i + 1).drop_last() =~= lv.take(i as int));
            }
            let (locale, words) = (&library[i].0, &library[i].1);
            let ghost wv = pairs_view(words@);
            let mut pairs: Vec<(String, String)> = Vec::new();
            let mut k: usize = 0;
            while k < words.len()
                invariant
                    wv == pairs_view(words@),
                    k <= words@.len(),
                    pairs_view(pairs@) == placeholders(wv.take(k as int)),
                decreases words@.len() - k,
            {
                let mut key: Vec<char> = Vec::new();
                key.push('{');
                let w = chars_of(words[k].0.as_str());
                let mut j: usize = 0;
                while j < w.len()
                    invariant
                        j <= w@.len(),
                        key@ == seq!['{'] + w@.take(j as int),
                    decreases w@.len() - j,
                {
                    key.push(w[j]);
                    j = j + 1;
                    assert(key@ =~= seq!['{'] + w@.take(j as int));
                }
                key.push('}');
                assert(w@.take(j as int) =~= w@);
                assert(key@ =~= placeholder(wv[k as int].0));
                let ghost prev = pairs@;
                pairs.push((string_of(key.as_slice()), words[k].1.clone()));
                assert(pairs_view(pairs@) =~= pairs_view(prev).push((placeholder(wv[k as int].0), wv[k as int].1)));
                k = k + 1;
                assert(placeholders(wv.take(k as int)) =~= placeholders(wv.take(k - 1)).push((placeholder(wv[k - 1].0), wv[k - 1].1)));
            }
            assert(wv.take(k as int) =~= wv);
            map.insert(locale.clone(), Words { pairs });
            i = i + 1;
        }
        assert(lv.take(i as int) =~= lv);
        I18n { library: map }
    }

    /// Translate `template` for `locale`.
    pub fn render(&self, template: &str, locale: &str) -> (r: String)
        requires
            self.wf(),
        ensures
            r@ == spec_render(self@, template@, locale@),
    {
        let key = locale.to_owned();
        let mut out = chars_of(template);
        match self.library.get(&key) {
            None => {},
            Some(words) => {
                let ghost wv = words@;
                let mut i: usize = 0;
                while i < words.pairs.len()
                    invariant
                        wv == words@,
                        i <= wv.len(),
                        out@ == render_with(template@, wv.take(i as int)),
                    decreases wv.len() - i,
                {
                    proof {
                        assert(wv.take(i + 1).drop_last() =~= wv.take(i as int));
                    }
                    let pat = chars_of(words.pairs[i].0.as_str());
                    let rep = chars_of(words.pairs[i].1.as_str());
                    out = replace_chars(out.as_slice(), pat.as_slice(), rep.as_slice());
                    i = i + 1;
                }
                assert(wv.take(i as int) =~= wv);
            },
        }
        string_of(out.as_slice())
    }
}

} // verus!
