//! The application configuration the favourites list lives in: a flat list
//! of favourite page names beside the visual design settings. Configuration
//! values are immutable; every update returns a new value.

use vstd::prelude::*;

use crate::model::SimplePageName;

verus! {

/// Visual design settings, carried through favourites updates unchanged.
pub struct Design {
    pub primary_color: String,
    pub background_color: String,
}

/// Model of a [`Design`].
#[verifier::ext_equal]
pub struct DesignModel {
    pub primary_color: Seq<char>,
    pub background_color: Seq<char>,
}

/// One favourite: a page name marked by the user.
pub struct Favourite {
    pub name: SimplePageName,
}

/// The configuration value: the favourites in their stored order, and the
/// design settings.
pub struct Config {
    pub favourites: Vec<Favourite>,
    pub design: Design,
}

/// Model of a [`Config`].
#[verifier::ext_equal]
pub struct ConfigModel {
    pub favourites: Seq<Seq<char>>,
    pub design: DesignModel,
}

impl View for Design {
    type V = DesignModel;

    open spec fn view(&self) -> DesignModel {
        DesignModel {
            primary_color: self.primary_color@,
            background_color: self.background_color@,
        }
    }
}

impl DeepView for Design {
    type V = DesignModel;

    open spec fn deep_view(&self) -> DesignModel {
        self@
    }
}

impl View for Favourite {
    type V = Seq<char>;

    open spec fn view(&self) -> Seq<char> {
        self.name@
    }
}

impl DeepView for Favourite {
    type V = Seq<char>;

    open spec fn deep_view(&self) -> Seq<char> {
        self@
    }
}

impl View for Config {
    type V = ConfigModel;

    open spec fn view(&self) -> ConfigModel {
        ConfigModel { favourites: self.favourites.deep_view(), design: self.design@ }
    }
}

impl DeepView for Config {
    type V = ConfigModel;

    open spec fn deep_view(&self) -> ConfigModel {
        self@
    }
}

impl Clone for Design {
    fn clone(&self) -> (res: Self)
        ensures
            res == *self,
    {
        Design {
            primary_color: self.primary_color.clone(),
            background_color: self.background_color.clone(),
        }
    }
}

impl Clone for Favourite {
    fn clone(&self) -> (res: Self)
        ensures
            res == *self,
    {
        Favourite { name: self.name.clone() }
    }
}

impl Favourite {
    /// Whether this favourite marks the given page name.
    pub fn equals_simple_name(&self, name: &SimplePageName) -> (r: bool)
        ensures
            r == (self.name@ == name@),
    {
        self.name.name.eq(&name.name)
    }
}

} // verus!
