use vstd::prelude::*;
use vstd::string::StringExecFns;

verus! {

/// A directional input symbol: the alphabet every pattern is written in.
#[derive(Clone, Copy, PartialEq, Eq, Structural, Debug)]
pub enum Symbol {
    Up,
    Down,
    Left,
    Right,
}

/// An ordered, non-empty sequence of symbols. The same pattern is both
/// what a phase displays and what the player must type, so the two can
/// never drift apart.
pub struct Pattern {
    symbols: Vec<Symbol>,
}

impl View for Pattern {
    type V = Seq<Symbol>;

    closed spec fn view(&self) -> Seq<Symbol> {
        self.symbols@
    }
}

impl Pattern {
    /// A pattern is well formed when it holds at least one symbol.
    pub open spec fn wf(&self) -> bool {
        self@.len() >= 1
    }

    /// Builds a pattern from its symbols; an empty list is rejected.
    pub fn new(symbols: Vec<Symbol>) -> (r: Option<Pattern>)
        ensures
            r is None <==> symbols@.len() == 0,
            r matches Some(p) ==> p@ == symbols@ && p.wf(),
    {
        if symbols.len() == 0 {
            None
        } else {
            Some(Pattern { symbols })
        }
    }

    pub fn len(&self) -> (n: usize)
        ensures
            n == self@.len(),
    {
        self.symbols.len()
    }

    /// The symbol required (and displayed) at position `i`.
    pub fn symbol_at(&self, i: usize) -> (s: Symbol)
        requires
            i < self@.len(),
        ensures
            s == self@[i as int],
    {
        self.symbols[i]
    }

    /// A fresh pattern holding the same symbols.
    pub fn duplicate(&self) -> (r: Pattern)
        ensures
            r@ == self@,
            r.wf() == self.wf(),
    {
        let mut symbols: Vec<Symbol> = Vec::new();
        let mut i: usize = 0;
        while i < self.symbols.len()
            invariant
                i <= self.symbols.len(),
                symbols@ =~= self.symbols@.take(i as int),
            decreases self.symbols.len() - i,
        {
            symbols.push(self.symbols[i]);
            i = i + 1;
        }
        proof {
            assert(symbols@ =~= self.symbols@);
        }
        Pattern { symbols }
    }
}

/// A named challenge: a title, a line of descriptive text, and the
/// pattern the player must reproduce.
pub struct Phase {
    name: String,
    about: String,
    pattern: Pattern,
}

impl Phase {
    pub closed spec fn name_view(&self) -> Seq<char> {
        self.name@
    }

    pub closed spec fn about_view(&self) -> Seq<char> {
        self.about@
    }

    pub closed spec fn pattern_view(&self) -> Seq<Symbol> {
        self.pattern@
    }

    /// A phase is well formed when its pattern is.
    pub open spec fn wf(&self) -> bool {
        self.pattern_view().len() >= 1
    }

    pub fn new(name: String, about: String, pattern: Pattern) -> (r: Phase)
        requires
            pattern.wf(),
        ensures
            r.name_view() == name@,
            r.about_view() == about@,
            r.pattern_view() == pattern@,
            r.wf(),
    {
        Phase { name, about, pattern }
    }

    pub fn name(&self) -> (r: &str)
        ensures
            r@ == self.name_view(),
    {
        self.name.as_str()
    }

    pub fn about(&self) -> (r: &str)
        ensures
            r@ == self.about_view(),
    {
        self.about.as_str()
    }

    pub fn pattern(&self) -> (r: &Pattern)
        ensures
            r@ == self.pattern_view(),
    {
        &self.pattern
    }
}

fn pattern_of(symbols: Vec<Symbol>) -> (r: Pattern)
    requires
        symbols@.len() >= 1,
    ensures
        r@ == symbols@,
        r.wf(),
{
    match Pattern::new(symbols) {
        Some(p) => p,
        None => unreached(),
    }
}

/// The built-in challenge table: the three phases the game starts with,
/// each with its title, its blurb, and its target pattern.
pub fn standard_phases() -> (r: Vec<Phase>)
    ensures
        r@.len() == 3,
        forall|i: int| 0 <= i < r@.len() ==> (#[trigger] r@[i]).wf(),
        r@[0].name_view() == "Phase 1"@,
        r@[1].name_view() == "Phase 2"@,
        r@[2].name_view() == "Phase 3"@,
        r@[0].pattern_view() =~= seq![
            Symbol::Up,
            Symbol::Down,
            Symbol::Right,
            Symbol::Left,
            Symbol::Right,
            Symbol::Up,
            Symbol::Down,
        ],
        r@[1].pattern_view() =~= seq![
            Symbol::Down,
            Symbol::Down,
            Symbol::Down,
            Symbol::Right,
            Symbol::Up,
            Symbol::Left,
        ],
        r@[2].pattern_view() =~= r@[0].pattern_view(),
{
    let mut first: Vec<Symbol> = Vec::new();
    first.push(Symbol::Up);
    first.push(Symbol::Down);
    first.push(Symbol::Right);
    first.push(Symbol::Left);
    first.push(Symbol::Right);
    first.push(Symbol::Up);
    first.push(Symbol::Down);
    let mut second: Vec<Symbol> = Vec::new();
    second.push(Symbol::Down);
    second.push(Symbol::Down);
    second.push(Symbol::Down);
    second.push(Symbol::Right);
    second.push(Symbol::Up);
    second.push(Symbol::Left);
    let third = pattern_of(first).duplicate();
    let first_phase = Phase::new(
        String::from_str("Phase 1"),
        String::from_str("In this phase, stuff happens."),
        third.duplicate(),
    );
    let second_phase = Phase::new(
        String::from_str("Phase 2"),
        String::from_str("This one, crazy"),
        pattern_of(second),
    );
    let third_phase = Phase::new(
        String::from_str("Phase 3"),
        String::from_str("SOUUUUUPPPPP"),
        third,
    );
    let mut phases: Vec<Phase> = Vec::new();
    phases.push(first_phase);
    phases.push(second_phase);
    phases.push(third_phase);
    phases
}

} // verus!
