//! Names that are recognised by their spelling.

use vstd::prelude::*;
use vstd::std_specs::convert::TryFromSpecImpl;
use vstd::string::StringExecFns;

verus! {

/// The names that are known.
#[derive(Clone, Copy, Debug, PartialEq, Eq, Structural)]
pub enum Enum {
    Asimo,
    Balaclava,
    Crane,
    DdongJengE,
}

impl Enum {
    /// The spelling by which a name is recognised.
    pub open spec fn spelling(self) -> Seq<char> {
        match self {
            Enum::Asimo => "asimo"@,
            Enum::Balaclava => "balaclava"@,
            Enum::Crane => "crane"@,
            Enum::DdongJengE => "ddongJengE"@,
        }
    }

    /// The name spelled by `text`, if there is one.
    pub open spec fn parse(text: Seq<char>) -> Result<Enum, ()> {
        if text == Enum::Asimo.spelling() {
            Ok(Enum::Asimo)
        } else if text == Enum::Balaclava.spelling() {
            Ok(Enum::Balaclava)
        } else if text == Enum::DdongJengE.spelling() {
            Ok(Enum::DdongJengE)
        } else if text == Enum::Crane.spelling() {
            Ok(Enum::Crane)
        } else {
            Err(())
        }
    }
}

impl<'a> TryFrom<&'a str> for Enum {
    type Error = ();

    fn try_from(value: &'a str) -> (r: Result<Enum, ()>)
        ensures
            r == Enum::parse(value@),
    {
        let text: String = String::from_str(value);
        if text == String::from_str("asimo") {
            Ok(Enum::Asimo)
        } else if text == String::from_str("balaclava") {
            Ok(Enum::Balaclava)
        } else if text == String::from_str("ddongJengE") {
            Ok(Enum::DdongJengE)
        } else if text == String::from_str("crane") {
            Ok(Enum::Crane)
        } else {
            Err(())
        }
    }
}

impl<'a> TryFromSpecImpl<&'a str> for Enum {
    open spec fn obeys_try_from_spec() -> bool {
        true
    }

    open spec fn try_from_spec(value: &'a str) -> Result<Enum, ()> {
        Enum::parse(value@)
    }
}

/// Every name is recognised by its own spelling, and no two names share one.
pub proof fn lemma_spelling_round_trip(name: Enum)
    ensures
        Enum::parse(name.spelling()) == Ok::<Enum, ()>(name),
{
    reveal_strlit("asimo");
    reveal_strlit("balaclava");
    reveal_strlit("crane");
    reveal_strlit("ddongJengE");
    assert("asimo"@.len() == 5);
    assert("balaclava"@.len() == 9);
    assert("crane"@.len() == 5);
    assert("ddongJengE"@.len() == 10);
    assert("asimo"@[0] == 'a');
    assert("crane"@[0] == 'c');
}

} // verus!
