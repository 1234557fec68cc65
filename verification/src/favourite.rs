//! Operations on the favourites list: membership, add, remove and replace.
//! Each update leaves the design settings untouched and returns a new
//! configuration value.

use vstd::prelude::*;

use crate::config::{Config, Favourite};
use crate::model::SimplePageName;

verus! {

/// The favourites that survive removing one name: exactly those that differ
/// from it, in their original order.
pub open spec fn favourites_without(favourites: Seq<Seq<char>>, name: Seq<char>) -> Seq<Seq<char>>
    decreases favourites.len(),
{
    if favourites.len() == 0 {
        Seq::empty()
    } else {
        favourites_without(favourites.drop_last(), name) + if favourites.last() != name {
            seq![favourites.last()]
        } else {
            Seq::<Seq<char>>::empty()
        }
    }
}

proof fn lemma_favourites_without_step(favourites: Seq<Seq<char>>, name: Seq<char>, n: int)
    requires
        0 <= n < favourites.len(),
    ensures
        favourites_without(favourites.take(n + 1), name) == favourites_without(
            favourites.take(n),
            name,
        ) + if favourites[n] != name {
            seq![favourites[n]]
        } else {
            Seq::<Seq<char>>::empty()
        },
{
    assert(favourites.take(n + 1).drop_last() =~= favourites.take(n));
    assert(favourites.take(n + 1).last() == favourites[n]);
}

/// Whether the configuration marks the given page name as a favourite.
pub fn is_favourite(name: &SimplePageName, config: &Config) -> (r: bool)
    ensures
        r == config@.favourites.contains(name@),
{
    let mut i: usize = 0;
    while i < config.favourites.len()
        invariant
            i <= config.favourites.len(),
            forall|k: int| 0 <= k < i ==> config@.favourites[k] != name@,
        decreases config.favourites.len() - i,
    {
        if config.favourites[i].equals_simple_name(name) {
            proof {
                assert(config@.favourites[i as int] == name@);
            }
            return true;
        }
        i += 1;
    }
    false
}

/// Appends a page name to the favourites; everything else is unchanged.
pub fn add_favourite(simple_page_name: SimplePageName, config: &Config) -> (r: Config)
    ensures
        r@.favourites == config@.favourites.push(simple_page_name@),
        r@.design == config@.design,
{
    let ghost added = simple_page_name@;
    let mut new_favourites = config.favourites.clone();
    proof {
        assert forall|k: int|
            0 <= k < config.favourites@.len() implies new_favourites.deep_view()[k]
            == config.favourites.deep_view()[k] by {
            assert(cloned(config.favourites@[k], new_favourites@[k]));
        }
        assert(new_favourites.deep_view() =~= config.favourites.deep_view());
    }
    new_favourites.push(Favourite { name: simple_page_name });
    proof {
        assert(new_favourites.deep_view() =~= config.favourites.deep_view().push(added));
    }
    Config { favourites: new_favourites, design: config.design.clone() }
}

/// Replaces the favourites wholesale; the design is unchanged.
pub fn set_favourites(new_favourites: Vec<SimplePageName>, config: &Config) -> (r: Config)
    ensures
        r@.favourites == new_favourites.deep_view(),
        r@.design == config@.design,
{
    let mut result: Vec<Favourite> = Vec::new();
    proof {
        assert(result.deep_view() =~= new_favourites.deep_view().take(0));
    }
    let mut i: usize = 0;
    while i < new_favourites.len()
        invariant
            i <= new_favourites.len(),
            result.deep_view() == new_favourites.deep_view().take(i as int),
        decreases new_favourites.len() - i,
    {
        let ghost pre = result.deep_view();
        result.push(Favourite { name: new_favourites[i].clone() });
        proof {
            assert(result.deep_view() =~= pre.push(new_favourites.deep_view()[i as int]));
            assert(result.deep_view() =~= new_favourites.deep_view().take(i as int + 1));
        }
        i += 1;
    }
    proof {
        assert(new_favourites.deep_view().take(new_favourites.len() as int)
            =~= new_favourites.deep_view());
    }
    Config { favourites: result, design: config.design.clone() }
}

/// Removes every favourite bearing the given page name; other favourites
/// and the design are unchanged.
pub fn remove_favourite(simple_page_name: SimplePageName, config: &Config) -> (r: Config)
    ensures
        r@.favourites == favourites_without(config@.favourites, simple_page_name@),
        r@.design == config@.design,
{
    let mut new_favourites: Vec<Favourite> = Vec::new();
    proof {
        assert(new_favourites.deep_view() =~= favourites_without(
            config@.favourites.take(0),
            simple_page_name@,
        ));
    }
    let mut i: usize = 0;
    while i < config.favourites.len()
        invariant
            i <= config.favourites.len(),
            new_favourites.deep_view() == favourites_without(
                config@.favourites.take(i as int),
                simple_page_name@,
            ),
        decreases config.favourites.len() - i,
    {
        let favourite = &config.favourites[i];
        let ghost pre = new_favourites.deep_view();
        if !favourite.equals_simple_name(&simple_page_name) {
            new_favourites.push(Favourite { name: favourite.name.clone() });
            proof {
                assert(new_favourites.deep_view() =~= pre.push(config@.favourites[i as int]));
            }
        }
        proof {
            lemma_favourites_without_step(config@.favourites, simple_page_name@, i as int);
            assert(favourite@ == config@.favourites[i as int]);
            if config@.favourites[i as int] != simple_page_name@ {
                assert(pre.push(config@.favourites[i as int]) =~= favourites_without(
                    config@.favourites.take(i as int + 1),
                    simple_page_name@,
                ));
            } else {
                assert(new_favourites.deep_view() =~= favourites_without(
                    config@.favourites.take(i as int + 1),
                    simple_page_name@,
                ));
            }
        }
        i += 1;
    }
    proof {
        assert(config@.favourites.take(config.favourites.len() as int) =~= config@.favourites);
    }
    Config { favourites: new_favourites, design: config.design.clone() }
}

} // verus!
