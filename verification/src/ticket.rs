use vstd::prelude::*;

verus! {

/// The credential bundle the ticket service issues: the account's playable
/// characters and an opaque token. Immutable once issued; a later ticket
/// replaces it wholesale.
pub struct Ticket {
    pub characters: Vec<String>,
    pub default_character: String,
    pub ticket: String,
}

/// `a` carries exactly the same data as `b`.
pub open spec fn same_ticket(a: Ticket, b: Ticket) -> bool {
    &&& a.characters@ == b.characters@
    &&& a.default_character == b.default_character
    &&& a.ticket == b.ticket
}

impl Ticket {
    /// An exact copy of the ticket.
    pub fn duplicate(&self) -> (r: Ticket)
        ensures
            same_ticket(r, *self),
    {
        let mut characters: Vec<String> = Vec::new();
        let mut i: usize = 0;
        while i < self.characters.len()
            invariant
                i <= self.characters@.len(),
                characters@ == self.characters@.take(i as int),
            decreases self.characters@.len() - i,
        {
            characters.push(self.characters[i].clone());
            i = i + 1;
            proof {
                assert(characters@ =~= self.characters@.take(i as int));
            }
        }
        proof {
            assert(self.characters@.take(self.characters@.len() as int) =~= self.characters@);
        }
        Ticket {
            characters,
            default_character: self.default_character.clone(),
            ticket: self.ticket.clone(),
        }
    }
}

} // verus!
