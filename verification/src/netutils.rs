use vstd::prelude::*;

verus! {

/// Address family selector for public-address probes.
#[derive(Clone, Copy, Debug)]
pub enum IP {
    V4,
    V6,
}

/// The addresses observed for one host or domain: each family is
/// independently optional, and absence is a valid outcome meaning
/// "no address of that family detected / published".
#[derive(Debug)]
pub struct Addresses {
    pub v4: Option<String>,
    pub v6: Option<String>,
}

/// Mathematical value of an `Addresses`: each side, when present,
/// is the character sequence of the address text.
pub ghost struct AddressesModel {
    pub v4: Option<Seq<char>>,
    pub v6: Option<Seq<char>>,
}

impl View for Addresses {
    type V = AddressesModel;

    open spec fn view(&self) -> AddressesModel {
        AddressesModel { v4: self.v4.deep_view(), v6: self.v6.deep_view() }
    }
}

/// One resolved address with its family tag; a list of these keeps
/// the order in which the lookup reported them.
#[derive(Debug)]
pub struct ProbedAddress {
    pub family: IP,
    pub text: String,
}

/// The first IPv4 text in a lookup result, if any.
pub open spec fn first_v4(s: Seq<ProbedAddress>) -> Option<Seq<char>>
    decreases s.len(),
{
    if s.len() == 0 {
        None
    } else if s[0].family is V4 {
        Some(s[0].text@)
    } else {
        first_v4(s.skip(1))
    }
}

/// The first IPv6 text in a lookup result, if any.
pub open spec fn first_v6(s: Seq<ProbedAddress>) -> Option<Seq<char>>
    decreases s.len(),
{
    if s.len() == 0 {
        None
    } else if s[0].family is V6 {
        Some(s[0].text@)
    } else {
        first_v6(s.skip(1))
    }
}

/// Condenses a host lookup's address list into the pair this system
/// compares: the first IPv4 and the first IPv6 the lookup reported,
/// each absent when the list has no address of that family.
pub fn collect_addresses(entries: &Vec<ProbedAddress>) -> (r: Addresses)
    ensures
        r@.v4 == first_v4(entries@),
        r@.v6 == first_v6(entries@),
{
    let mut v4: Option<String> = None;
    let mut v6: Option<String> = None;
    let mut i: usize = entries.len();
    while i > 0
        invariant
            i <= entries.len(),
            v4.deep_view() == first_v4(entries@.skip(i as int)),
            v6.deep_view() == first_v6(entries@.skip(i as int)),
        decreases i,
    {
        i = i - 1;
        proof {
            assert(entries@.skip(i as int).skip(1) =~= entries@.skip(i as int + 1));
            assert(entries@.skip(i as int)[0] == entries@[i as int]);
        }
        match entries[i].family {
            IP::V4 => {
                v4 = Some(entries[i].text.clone());
            },
            IP::V6 => {
                v6 = Some(entries[i].text.clone());
            },
        }
    }
    proof {
        assert(entries@.skip(0) =~= entries@);
    }
    Addresses { v4, v6 }
}

} // verus!
