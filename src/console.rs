use vstd::prelude::*;

verus! {

/// The terminal view: the row where log lines start and the name of the
/// account the bot is logged in as.
pub struct Console {
    logging_y: u16,
    player_name: String,
}

impl Console {
    pub closed spec fn spec_logging_y(&self) -> u16 {
        self.logging_y
    }

    pub closed spec fn spec_player_name(&self) -> Seq<char> {
        self.player_name@
    }

    pub fn new(player_name: String) -> (r: Console)
        ensures
            r.spec_logging_y() == 10,
            r.spec_player_name() == player_name@,
    {
        Console { logging_y: 10, player_name }
    }

    pub fn logging_y(&self) -> (r: u16)
        ensures
            r == self.spec_logging_y(),
    {
        self.logging_y
    }

    pub fn player_name(&self) -> (r: &String)
        ensures
            r@ == self.spec_player_name(),
    {
        &self.player_name
    }
}

} // verus!
