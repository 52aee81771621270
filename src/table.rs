use std::collections::HashMap;
use vstd::prelude::*;

verus! {

broadcast use vstd::std_specs::hash::group_hash_axioms;

/// Key of a one-letter symbol.
pub open spec fn single_code(a: u8) -> u32 {
    a as u32
}

/// Key of a two-letter symbol; never equal to the key of a one-letter one.
pub open spec fn pair_code(a: u8, b: u8) -> u32 {
    (((a as int) + 1) * 256 + (b as int)) as u32
}

/// Key under which a symbol of one or two bytes is stored.
pub open spec fn symbol_code(sym: Seq<u8>) -> u32 {
    if sym.len() == 1 {
        single_code(sym[0])
    } else {
        pair_code(sym[0], sym[1])
    }
}

fn single(a: u8) -> (r: u32)
    ensures
        r == single_code(a),
{
    a as u32
}

fn pair(a: u8, b: u8) -> (r: u32)
    ensures
        r == pair_code(a, b),
{
    ((a as u32) + 1) * 256 + (b as u32)
}

/// The element table: storage key of each symbol mapped to the element's name.
pub open spec fn periodic_codes() -> Map<u32, &'static str> {
    Map::empty()
        .insert(pair_code('a' as u8, 'c' as u8), "Actinium")
        .insert(pair_code('a' as u8, 'g' as u8), "Silver")
        .insert(pair_code('a' as u8, 'l' as u8), "Aluminium")
        .insert(pair_code('a' as u8, 'm' as u8), "Americium")
        .insert(pair_code('a' as u8, 'r' as u8), "Argon")
        .insert(pair_code('a' as u8, 's' as u8), "Arsenic")
        .insert(pair_code('a' as u8, 't' as u8), "Astatine")
        .insert(pair_code('a' as u8, 'u' as u8), "Gold")
        .insert(single_code('b' as u8), "Boron")
        .insert(pair_code('b' as u8, 'a' as u8), "Barium")
        .insert(pair_code('b' as u8, 'e' as u8), "Beryllium")
        .insert(pair_code('b' as u8, 'h' as u8), "Bohrium")
        .insert(pair_code('b' as u8, 'i' as u8), "Bismuth")
        .insert(pair_code('b' as u8, 'k' as u8), "Berkelium")
        .insert(pair_code('b' as u8, 'r' as u8), "Bromine")
        .insert(single_code('c' as u8), "Carbon")
        .insert(pair_code('c' as u8, 'a' as u8), "Calcium")
        .insert(pair_code('c' as u8, 'd' as u8), "Cadmium")
        .insert(pair_code('c' as u8, 'e' as u8), "Cerium")
        .insert(pair_code('c' as u8, 'f' as u8), "Californium")
        .insert(pair_code('c' as u8, 'l' as u8), "Chlorine")
        .insert(pair_code('c' as u8, 'm' as u8), "Curium")
        .insert(pair_code('c' as u8, 'n' as u8), "Copernicium")
        .insert(pair_code('c' as u8, 'o' as u8), "Cobalt")
        .insert(pair_code('c' as u8, 'r' as u8), "Chromium")
        .insert(pair_code('c' as u8, 's' as u8), "Caesium")
        .insert(pair_code('c' as u8, 'u' as u8), "Copper")
        .insert(pair_code('d' as u8, 'b' as u8), "Dubnium")
        .insert(pair_code('d' as u8, 's' as u8), "Darmstadtium")
        .insert(pair_code('d' as u8, 'y' as u8), "Dysprosium")
        .insert(pair_code('e' as u8, 'r' as u8), "Erbium")
        .insert(pair_code('e' as u8, 's' as u8), "Einsteinium")
        .insert(pair_code('e' as u8, 'u' as u8), "Europium")
        .insert(single_code('f' as u8), "Fluorine")
        .insert(pair_code('f' as u8, 'e' as u8), "Iron")
        .insert(pair_code('f' as u8, 'l' as u8), "Flerovium")
        .insert(pair_code('f' as u8, 'm' as u8), "Fermium")
        .insert(pair_code('f' as u8, 'r' as u8), "Francium")
        .insert(pair_code('g' as u8, 'a' as u8), "Gallium")
        .insert(pair_code('g' as u8, 'd' as u8), "Gadolinium")
        .insert(pair_code('g' as u8, 'e' as u8), "Germanium")
        .insert(single_code('h' as u8), "Hydrogen")
        .insert(pair_code('h' as u8, 'e' as u8), "Helium")
        .insert(pair_code('h' as u8, 'f' as u8), "Hafnium")
        .insert(pair_code('h' as u8, 'g' as u8), "Mercury")
        .insert(pair_code('h' as u8, 'o' as u8), "Holmium")
        .insert(pair_code('h' as u8, 's' as u8), "Hassium")
        .insert(single_code('i' as u8), "Iodine")
        .insert(pair_code('i' as u8, 'n' as u8), "Indium")
        .insert(pair_code('i' as u8, 'r' as u8), "Iridium")
        .insert(single_code('k' as u8), "Potassium")
        .insert(pair_code('k' as u8, 'r' as u8), "Krypton")
        .insert(pair_code('l' as u8, 'a' as u8), "Lanthanum")
        .insert(pair_code('l' as u8, 'i' as u8), "Lithium")
        .insert(pair_code('l' as u8, 'r' as u8), "Lawrencium")
        .insert(pair_code('l' as u8, 'u' as u8), "Lutetium")
        .insert(pair_code('l' as u8, 'v' as u8), "Livermorium")
        .insert(pair_code('m' as u8, 'c' as u8), "Moscovium")
        .insert(pair_code('m' as u8, 'd' as u8), "Mendelevium")
        .insert(pair_code('m' as u8, 'g' as u8), "Magnesium")
        .insert(pair_code('m' as u8, 'n' as u8), "Manganese")
        .insert(pair_code('m' as u8, 'o' as u8), "Molybdenum")
        .insert(pair_code('m' as u8, 't' as u8), "Meitnerium")
        .insert(single_code('n' as u8), "Nitrogen")
        .insert(pair_code('n' as u8, 'a' as u8), "Sodium")
        .insert(pair_code('n' as u8, 'b' as u8), "Niobium")
        .insert(pair_code('n' as u8, 'd' as u8), "Neodymium")
        .insert(pair_code('n' as u8, 'e' as u8), "Neon")
        .insert(pair_code('n' as u8, 'h' as u8), "Nihonium")
        .insert(pair_code('n' as u8, 'i' as u8), "Nickel")
        .insert(pair_code('n' as u8, 'o' as u8), "Nobelium")
        .insert(pair_code('n' as u8, 'p' as u8), "Neptunium")
        .insert(single_code('o' as u8), "Oxygen")
        .insert(pair_code('o' as u8, 'g' as u8), "Oganesson")
        .insert(pair_code('o' as u8, 's' as u8), "Osmium")
        .insert(single_code('p' as u8), "Phosphorus")
        .insert(pair_code('p' as u8, 'a' as u8), "Protactinium")
        .insert(pair_code('p' as u8, 'b' as u8), "Lead")
        .insert(pair_code('p' as u8, 'd' as u8), "Palladium")
        .insert(pair_code('p' as u8, 'm' as u8), "Promethium")
        .insert(pair_code('p' as u8, 'o' as u8), "Polonium")
        .insert(pair_code('p' as u8, 'r' as u8), "Praseodymium")
        .insert(pair_code('p' as u8, 't' as u8), "Platinum")
        .insert(pair_code('p' as u8, 'u' as u8), "Plutonium")
        .insert(pair_code('r' as u8, 'a' as u8), "Radium")
        .insert(pair_code('r' as u8, 'b' as u8), "Rubidium")
        .insert(pair_code('r' as u8, 'e' as u8), "Rhenium")
        .insert(pair_code('r' as u8, 'f' as u8), "Rutherfordium")
        .insert(pair_code('r' as u8, 'g' as u8), "Roentgenium")
        .insert(pair_code('r' as u8, 'h' as u8), "Rhodium")
        .insert(pair_code('r' as u8, 'n' as u8), "Radon")
        .insert(pair_code('r' as u8, 'u' as u8), "Ruthenium")
        .insert(single_code('s' as u8), "Sulfur")
        .insert(pair_code('s' as u8, 'b' as u8), "Antimony")
        .insert(pair_code('s' as u8, 'c' as u8), "Scandium")
        .insert(pair_code('s' as u8, 'e' as u8), "Selenium")
        .insert(pair_code('s' as u8, 'g' as u8), "Seaborgium")
        .insert(pair_code('s' as u8, 'i' as u8), "Silicon")
        .insert(pair_code('s' as u8, 'm' as u8), "Samarium")
        .insert(pair_code('s' as u8, 'n' as u8), "Tin")
        .insert(pair_code('s' as u8, 'r' as u8), "Strontium")
        .insert(pair_code('t' as u8, 'a' as u8), "Tantalum")
        .insert(pair_code('t' as u8, 'b' as u8), "Terbium")
        .insert(pair_code('t' as u8, 'c' as u8), "Technetium")
        .insert(pair_code('t' as u8, 'e' as u8), "Tellurium")
        .insert(pair_code('t' as u8, 'h' as u8), "Thorium")
        .insert(pair_code('t' as u8, 'i' as u8), "Titanium")
        .insert(pair_code('t' as u8, 'l' as u8), "Thallium")
        .insert(pair_code('t' as u8, 'm' as u8), "Thulium")
        .insert(pair_code('t' as u8, 's' as u8), "Tennessine")
        .insert(single_code('u' as u8), "Uranium")
        .insert(single_code('v' as u8), "Vanadium")
        .insert(single_code('w' as u8), "Tungsten")
        .insert(pair_code('x' as u8, 'e' as u8), "Xenon")
        .insert(single_code('y' as u8), "Yttrium")
        .insert(pair_code('y' as u8, 'b' as u8), "Ytterbium")
        .insert(pair_code('z' as u8, 'n' as u8), "Zinc")
        .insert(pair_code('z' as u8, 'r' as u8), "Zirconium")
}

/// The table of element symbols and names.
pub struct PeriodicWords {
    periodic_elements: HashMap<u32, &'static str>,
}

impl View for PeriodicWords {
    /// Each symbol (one or two bytes) mapped to its element's name.
    type V = Map<Seq<u8>, &'static str>;

    closed spec fn view(&self) -> Map<Seq<u8>, &'static str> {
        Map::new(
            |sym: Seq<u8>|
                (sym.len() == 1 || sym.len() == 2) && self.periodic_elements@.contains_key(
                    symbol_code(sym),
                ),
            |sym: Seq<u8>| self.periodic_elements@[symbol_code(sym)],
        )
    }
}

impl PeriodicWords {
    /// The table of the element symbols, each of one or two lowercase letters.
    pub fn new() -> (r: Self)
        ensures
            r.codes() == periodic_codes(),
    {
        let mut m: HashMap<u32, &'static str> = HashMap::new();
        m.insert(pair('a' as u8, 'c' as u8), "Actinium");
        m.insert(pair('a' as u8, 'g' as u8), "Silver");
        m.insert(pair('a' as u8, 'l' as u8), "Aluminium");
        m.insert(pair('a' as u8, 'm' as u8), "Americium");
        m.insert(pair('a' as u8, 'r' as u8), "Argon");
        m.insert(pair('a' as u8, 's' as u8), "Arsenic");
        m.insert(pair('a' as u8, 't' as u8), "Astatine");
        m.insert(pair('a' as u8, 'u' as u8), "Gold");
        m.insert(single('b' as u8), "Boron");
        m.insert(pair('b' as u8, 'a' as u8), "Barium");
        m.insert(pair('b' as u8, 'e' as u8), "Beryllium");
        m.insert(pair('b' as u8, 'h' as u8), "Bohrium");
        m.insert(pair('b' as u8, 'i' as u8), "Bismuth");
        m.insert(pair('b' as u8, 'k' as u8), "Berkelium");
        m.insert(pair('b' as u8, 'r' as u8), "Bromine");
        m.insert(single('c' as u8), "Carbon");
        m.insert(pair('c' as u8, 'a' as u8), "Calcium");
        m.insert(pair('c' as u8, 'd' as u8), "Cadmium");
        m.insert(pair('c' as u8, 'e' as u8), "Cerium");
        m.insert(pair('c' as u8, 'f' as u8), "Californium");
        m.insert(pair('c' as u8, 'l' as u8), "Chlorine");
        m.insert(pair('c' as u8, 'm' as u8), "Curium");
        m.insert(pair('c' as u8, 'n' as u8), "Copernicium");
        m.insert(pair('c' as u8, 'o' as u8), "Cobalt");
        m.insert(pair('c' as u8, 'r' as u8), "Chromium");
        m.insert(pair('c' as u8, 's' as u8), "Caesium");
        m.insert(pair('c' as u8, 'u' as u8), "Copper");
        m.insert(pair('d' as u8, 'b' as u8), "Dubnium");
        m.insert(pair('d' as u8, 's' as u8), "Darmstadtium");
        m.insert(pair('d' as u8, 'y' as u8), "Dysprosium");
        m.insert(pair('e' as u8, 'r' as u8), "Erbium");
        m.insert(pair('e' as u8, 's' as u8), "Einsteinium");
        m.insert(pair('e' as u8, 'u' as u8), "Europium");
        m.insert(single('f' as u8), "Fluorine");
        m.insert(pair('f' as u8, 'e' as u8), "Iron");
        m.insert(pair('f' as u8, 'l' as u8), "Flerovium");
        m.insert(pair('f' as u8, 'm' as u8), "Fermium");
        m.insert(pair('f' as u8, 'r' as u8), "Francium");
        m.insert(pair('g' as u8, 'a' as u8), "Gallium");
        m.insert(pair('g' as u8, 'd' as u8), "Gadolinium");
        m.insert(pair('g' as u8, 'e' as u8), "Germanium");
        m.insert(single('h' as u8), "Hydrogen");
        m.insert(pair('h' as u8, 'e' as u8), "Helium");
        m.insert(pair('h' as u8, 'f' as u8), "Hafnium");
        m.insert(pair('h' as u8, 'g' as u8), "Mercury");
        m.insert(pair('h' as u8, 'o' as u8), "Holmium");
        m.insert(pair('h' as u8, 's' as u8), "Hassium");
        m.insert(single('i' as u8), "Iodine");
        m.insert(pair('i' as u8, 'n' as u8), "Indium");
        m.insert(pair('i' as u8, 'r' as u8), "Iridium");
        m.insert(single('k' as u8), "Potassium");
        m.insert(pair('k' as u8, 'r' as u8), "Krypton");
        m.insert(pair('l' as u8, 'a' as u8), "Lanthanum");
        m.insert(pair('l' as u8, 'i' as u8), "Lithium");
        m.insert(pair('l' as u8, 'r' as u8), "Lawrencium");
        m.insert(pair('l' as u8, 'u' as u8), "Lutetium");
        m.insert(pair('l' as u8, 'v' as u8), "Livermorium");
        m.insert(pair('m' as u8, 'c' as u8), "Moscovium");
        m.insert(pair('m' as u8, 'd' as u8), "Mendelevium");
        m.insert(pair('m' as u8, 'g' as u8), "Magnesium");
        m.insert(pair('m' as u8, 'n' as u8), "Manganese");
        m.insert(pair('m' as u8, 'o' as u8), "Molybdenum");
        m.insert(pair('m' as u8, 't' as u8), "Meitnerium");
        m.insert(single('n' as u8), "Nitrogen");
        m.insert(pair('n' as u8, 'a' as u8), "Sodium");
        m.insert(pair('n' as u8, 'b' as u8), "Niobium");
        m.insert(pair('n' as u8, 'd' as u8), "Neodymium");
        m.insert(pair('n' as u8, 'e' as u8), "Neon");
        m.insert(pair('n' as u8, 'h' as u8), "Nihonium");
        m.insert(pair('n' as u8, 'i' as u8), "Nickel");
        m.insert(pair('n' as u8, 'o' as u8), "Nobelium");
        m.insert(pair('n' as u8, 'p' as u8), "Neptunium");
        m.insert(single('o' as u8), "Oxygen");
        m.insert(pair('o' as u8, 'g' as u8), "Oganesson");
        m.insert(pair('o' as u8, 's' as u8), "Osmium");
        m.insert(single('p' as u8), "Phosphorus");
        m.insert(pair('p' as u8, 'a' as u8), "Protactinium");
        m.insert(pair('p' as u8, 'b' as u8), "Lead");
        m.insert(pair('p' as u8, 'd' as u8), "Palladium");
        m.insert(pair('p' as u8, 'm' as u8), "Promethium");
        m.insert(pair('p' as u8, 'o' as u8), "Polonium");
        m.insert(pair('p' as u8, 'r' as u8), "Praseodymium");
        m.insert(pair('p' as u8, 't' as u8), "Platinum");
        m.insert(pair('p' as u8, 'u' as u8), "Plutonium");
        m.insert(pair('r' as u8, 'a' as u8), "Radium");
        m.insert(pair('r' as u8, 'b' as u8), "Rubidium");
        m.insert(pair('r' as u8, 'e' as u8), "Rhenium");
        m.insert(pair('r' as u8, 'f' as u8), "Rutherfordium");
        m.insert(pair('r' as u8, 'g' as u8), "Roentgenium");
        m.insert(pair('r' as u8, 'h' as u8), "Rhodium");
        m.insert(pair('r' as u8, 'n' as u8), "Radon");
        m.insert(pair('r' as u8, 'u' as u8), "Ruthenium");
        m.insert(single('s' as u8), "Sulfur");
        m.insert(pair('s' as u8, 'b' as u8), "Antimony");
        m.insert(pair('s' as u8, 'c' as u8), "Scandium");
        m.insert(pair('s' as u8, 'e' as u8), "Selenium");
        m.insert(pair('s' as u8, 'g' as u8), "Seaborgium");
        m.insert(pair('s' as u8, 'i' as u8), "Silicon");
        m.insert(pair('s' as u8, 'm' as u8), "Samarium");
        m.insert(pair('s' as u8, 'n' as u8), "Tin");
        m.insert(pair('s' as u8, 'r' as u8), "Strontium");
        m.insert(pair('t' as u8, 'a' as u8), "Tantalum");
        m.insert(pair('t' as u8, 'b' as u8), "Terbium");
        m.insert(pair('t' as u8, 'c' as u8), "Technetium");
        m.insert(pair('t' as u8, 'e' as u8), "Tellurium");
        m.insert(pair('t' as u8, 'h' as u8), "Thorium");
        m.insert(pair('t' as u8, 'i' as u8), "Titanium");
        m.insert(pair('t' as u8, 'l' as u8), "Thallium");
        m.insert(pair('t' as u8, 'm' as u8), "Thulium");
        m.insert(pair('t' as u8, 's' as u8), "Tennessine");
        m.insert(single('u' as u8), "Uranium");
        m.insert(single('v' as u8), "Vanadium");
        m.insert(single('w' as u8), "Tungsten");
        m.insert(pair('x' as u8, 'e' as u8), "Xenon");
        m.insert(single('y' as u8), "Yttrium");
        m.insert(pair('y' as u8, 'b' as u8), "Ytterbium");
        m.insert(pair('z' as u8, 'n' as u8), "Zinc");
        m.insert(pair('z' as u8, 'r' as u8), "Zirconium");
        PeriodicWords { periodic_elements: m }
    }

    /// The table seen through its storage keys.
    pub closed spec fn codes(&self) -> Map<u32, &'static str> {
        self.periodic_elements@
    }

    /// Every key of the table is a symbol of one or two bytes, and the table
    /// is fully determined by its storage keys.
    pub proof fn lemma_view(&self)
        ensures
            forall|sym: Seq<u8>| #[trigger]
                self@.contains_key(sym) ==> 1 <= sym.len() <= 2,
            forall|sym: Seq<u8>| #[trigger]
                self@.contains_key(sym) <==> ((sym.len() == 1 || sym.len() == 2)
                    && self.codes().contains_key(symbol_code(sym))),
            forall|sym: Seq<u8>| #[trigger]
                self@.contains_key(sym) ==> self@[sym] == self.codes()[symbol_code(sym)],
    {
    }

    /// The name of the element whose symbol is `bytes[i..i + k]`, if any.
    pub fn lookup(&self, bytes: &[u8], i: usize, k: usize) -> (r: Option<&'static str>)
        requires
            k == 1 || k == 2,
            i + k <= bytes@.len(),
        ensures
            match r {
                Some(n) => self@.contains_key(bytes@.subrange(i as int, i + k))
                    && self@[bytes@.subrange(i as int, i + k)] == n,
                None => !self@.contains_key(bytes@.subrange(i as int, i + k)),
            },
    {
        let ghost sym = bytes@.subrange(i as int, i + k);
        let code = if k == 1 {
            single(bytes[i])
        } else {
            pair(bytes[i], bytes[i + 1])
        };
        assert(code == symbol_code(sym));
        match self.periodic_elements.get(&code) {
            Some(n) => Some(*n),
            None => None,
        }
    }
}

} // verus!
