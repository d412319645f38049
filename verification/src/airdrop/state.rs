use vstd::prelude::*;

verus! {

/// The airdrop's configuration: who may publish merkle roots, and the token
/// that claims are paid in.
#[derive(Clone, Debug)]
pub struct Config {
    pub owner: String,
    pub pluto_token: String,
}

pub struct ConfigView {
    pub owner: Seq<char>,
    pub pluto_token: Seq<char>,
}

impl View for Config {
    type V = ConfigView;

    open spec fn view(&self) -> ConfigView {
        ConfigView { owner: self.owner@, pluto_token: self.pluto_token@ }
    }
}

} // verus!
