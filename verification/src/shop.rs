//! The shop session: its settings, the pools of candidates, the stock on
//! display, and the commands that change them.

use vstd::prelude::*;
use vstd::string::StringExecFns;

use crate::generator::{
    below_test, count_eligible, draw_stock, drawn_from, eligible, may_reject, GenerationError,
};
use crate::item::{entries, Ceiling, Classification, Entry, StockItem};
use crate::loader::{
    all_scrolls, csv_records, lemma_pools_are_partitioned, load_outcome, no_scrolls, Catalog,
    LoadError, StockPools,
};
use crate::rarity::Rarity;

verus! {

/// The number of pages that the selected tab cycles through.
pub const TAB_COUNT: usize = 4;

/// Where the catalog is looked for unless the settings say otherwise.
pub const DEFAULT_STOCK_SOURCE: &'static str =
    r"C:\Users\Jordan\Desktop\code\werlen\stock_source.csv";

/// The settings of a shop: how much stock to generate, the ceilings that the
/// stock stays strictly below, and where the catalog lies.
#[derive(Debug, PartialEq, Eq)]
pub struct ShopConfiguration {
    pub max_scrolls: usize,
    pub max_scroll_level: usize,
    pub max_items: usize,
    pub max_item_rarity: Rarity,
    pub max_specials: usize,
    pub max_special_rarity: Rarity,
    pub stock_source: String,
}

/// The settings of a shop as plain values.
pub struct Settings {
    pub max_scrolls: usize,
    pub max_scroll_level: usize,
    pub max_items: usize,
    pub max_item_rarity: Rarity,
    pub max_specials: usize,
    pub max_special_rarity: Rarity,
    pub stock_source: Seq<char>,
}

impl View for ShopConfiguration {
    type V = Settings;

    open spec fn view(&self) -> Settings {
        Settings {
            max_scrolls: self.max_scrolls,
            max_scroll_level: self.max_scroll_level,
            max_items: self.max_items,
            max_item_rarity: self.max_item_rarity,
            max_specials: self.max_specials,
            max_special_rarity: self.max_special_rarity,
            stock_source: self.stock_source@,
        }
    }
}

impl Settings {
    /// The settings that a new session starts with.
    pub open spec fn initial() -> Settings {
        Settings {
            max_scrolls: 20,
            max_scroll_level: 5,
            max_items: 10,
            max_item_rarity: Rarity::Uncommon,
            max_specials: 5,
            max_special_rarity: Rarity::VeryRare,
            stock_source: DEFAULT_STOCK_SOURCE@,
        }
    }

    /// The ceiling that generated scrolls stay below.
    pub open spec fn scroll_ceiling(self) -> Ceiling {
        Ceiling::Level(self.max_scroll_level)
    }

    /// The ceiling that generated graded wares stay below.
    pub open spec fn item_ceiling(self) -> Ceiling {
        Ceiling::Rarity(self.max_item_rarity)
    }
}

impl ShopConfiguration {
    /// Returns the settings that a new session starts with.
    pub fn new() -> (config: ShopConfiguration)
        ensures
            config@ == Settings::initial(),
    {
        ShopConfiguration {
            max_scrolls: 20,
            max_scroll_level: 5,
            max_items: 10,
            max_item_rarity: Rarity::Uncommon,
            max_specials: 5,
            max_special_rarity: Rarity::VeryRare,
            stock_source: String::from_str(DEFAULT_STOCK_SOURCE),
        }
    }
}

impl Clone for ShopConfiguration {
    fn clone(&self) -> (copy: ShopConfiguration)
        ensures
            copy == *self,
    {
        ShopConfiguration {
            max_scrolls: self.max_scrolls,
            max_scroll_level: self.max_scroll_level,
            max_items: self.max_items,
            max_item_rarity: self.max_item_rarity,
            max_specials: self.max_specials,
            max_special_rarity: self.max_special_rarity,
            stock_source: self.stock_source.clone(),
        }
    }
}

/// How far a session has come, apart from a pending stock error.
#[derive(Debug, Clone, Copy, PartialEq, Eq, Structural)]
pub enum Phase {
    /// No pools were loaded yet, or the catalog could not be read when it was
    /// last asked for.
    Idle,
    /// The pools were loaded.
    PoolsLoaded,
    /// Stock was generated from the pools.
    StockGenerated,
}

/// A key as the session tells keys apart.
#[derive(Debug, Clone, Copy, PartialEq, Eq, Structural)]
pub enum Key {
    Esc,
    Left,
    Right,
    Char(char),
    Other,
}

/// What a key press asks of the session.
#[derive(Debug, Clone, Copy, PartialEq, Eq, Structural)]
pub enum Command {
    Quit,
    Reload,
    Generate,
    DismissError,
    NextView,
    PreviousView,
}

impl Command {
    /// The command that a key stands for, if any. `control` says that the
    /// control key, and no other modifier, was held down.
    pub open spec fn of_key(key: Key, control: bool) -> Option<Command> {
        match key {
            Key::Esc => Some(Command::Quit),
            Key::Left => Some(Command::PreviousView),
            Key::Right => Some(Command::NextView),
            Key::Char(c) => if c == 'q' || (control && (c == 'c' || c == 'C')) {
                Some(Command::Quit)
            } else if c == 'r' {
                Some(Command::Reload)
            } else if c == 'g' {
                Some(Command::Generate)
            } else if c == 'd' {
                Some(Command::DismissError)
            } else if c == 'l' {
                Some(Command::NextView)
            } else if c == 'h' {
                Some(Command::PreviousView)
            } else {
                None
            },
            Key::Other => None,
        }
    }

    /// Returns the command that a key stands for, if any. `control` says that
    /// the control key, and no other modifier, was held down.
    pub fn from_key(key: Key, control: bool) -> (command: Option<Command>)
        ensures
            command == Command::of_key(key, control),
    {
        match key {
            Key::Esc => Some(Command::Quit),
            Key::Left => Some(Command::PreviousView),
            Key::Right => Some(Command::NextView),
            Key::Char(c) => if c == 'q' || (control && (c == 'c' || c == 'C')) {
                Some(Command::Quit)
            } else if c == 'r' {
                Some(Command::Reload)
            } else if c == 'g' {
                Some(Command::Generate)
            } else if c == 'd' {
                Some(Command::DismissError)
            } else if c == 'l' {
                Some(Command::NextView)
            } else if c == 'h' {
                Some(Command::PreviousView)
            } else {
                None
            },
            Key::Other => None,
        }
    }
}

/// A shop session.
#[derive(Debug)]
pub struct App {
    running: bool,
    stock_error: bool,
    phase: Phase,
    tab: usize,
    config: ShopConfiguration,
    pools: StockPools,
    scroll_stock: Vec<StockItem>,
    item_stock: Vec<StockItem>,
    special_stock: Vec<StockItem>,
}

/// A shop session as plain values.
pub struct Session {
    pub running: bool,
    pub stock_error: bool,
    pub phase: Phase,
    pub tab: nat,
    pub config: Settings,
    pub pools: Catalog,
    pub scroll_stock: Seq<Entry>,
    pub item_stock: Seq<Entry>,
    pub special_stock: Seq<Entry>,
}

impl View for App {
    type V = Session;

    closed spec fn view(&self) -> Session {
        Session {
            running: self.running,
            stock_error: self.stock_error,
            phase: self.phase,
            tab: self.tab as nat,
            config: self.config@,
            pools: self.pools@,
            scroll_stock: entries(self.scroll_stock@),
            item_stock: entries(self.item_stock@),
            special_stock: entries(self.special_stock@),
        }
    }
}

impl Session {
    /// The session that a shop with these settings starts with: not running,
    /// no error, the first tab, and nothing in the pools or in stock.
    pub open spec fn initial(config: Settings) -> Session {
        Session {
            running: false,
            stock_error: false,
            phase: Phase::Idle,
            tab: 0,
            config,
            pools: Catalog { scrolls: Seq::empty(), items: Seq::empty() },
            scroll_stock: Seq::empty(),
            item_stock: Seq::empty(),
            special_stock: Seq::empty(),
        }
    }

    /// What holds in every session: the selected tab is one of the pages, the
    /// pools and the stock lists keep scrolls and graded wares apart, and
    /// there is no special stock.
    pub open spec fn consistent(self) -> bool {
        &&& self.tab < TAB_COUNT
        &&& all_scrolls(self.pools.scrolls)
        &&& no_scrolls(self.pools.items)
        &&& all_scrolls(self.scroll_stock)
        &&& no_scrolls(self.item_stock)
        &&& self.special_stock.len() == 0
    }

    /// The session with nothing in stock.
    pub open spec fn without_stock(self) -> Session {
        Session {
            scroll_stock: Seq::empty(),
            item_stock: Seq::empty(),
            special_stock: Seq::empty(),
            ..self
        }
    }

    /// The error with which generating stock is sure to fail, if it is:
    /// `EmptyPool` where a pool is empty, else `NoEligibleCandidates` where a
    /// pool holds no entry below its ceiling.
    pub open spec fn generation_error(self) -> Option<GenerationError> {
        if self.pools.items.len() == 0 || self.pools.scrolls.len() == 0 {
            Some(GenerationError::EmptyPool)
        } else if eligible(self.pools.items, self.config.item_ceiling()).len() == 0 || eligible(
            self.pools.scrolls,
            self.config.scroll_ceiling(),
        ).len() == 0 {
            Some(GenerationError::NoEligibleCandidates)
        } else {
            None
        }
    }

    /// Whether generating stock may have to reject a candidate that it drew.
    pub open spec fn may_reject(self) -> bool {
        ||| may_reject(self.pools.items, self.config.item_ceiling(), self.config.max_items as nat)
        ||| may_reject(
            self.pools.scrolls,
            self.config.scroll_ceiling(),
            self.config.max_scrolls as nat,
        )
    }

    /// Whether `after` and `outcome` are a possible result of generating
    /// stock in this session.
    ///
    /// Where `generation_error` names an error, that error is the outcome.
    /// Otherwise the outcome is success, or, only where a candidate may be
    /// rejected, `NoEligibleCandidates`. On success each list holds as many
    /// entries as the settings ask for, each an entry of its pool that lies
    /// strictly below its ceiling, and the error flag is down. On failure
    /// the error flag is up and nothing is in stock. Settings and pools stay
    /// as they are either way.
    pub open spec fn generated(self, after: Session, outcome: Result<(), GenerationError>) -> bool {
        match outcome {
            Ok(()) => {
                &&& self.generation_error() is None
                &&& after == Session {
                    stock_error: false,
                    phase: Phase::StockGenerated,
                    scroll_stock: after.scroll_stock,
                    item_stock: after.item_stock,
                    special_stock: Seq::empty(),
                    ..self
                }
                &&& drawn_from(
                    after.item_stock,
                    self.pools.items,
                    self.config.item_ceiling(),
                    self.config.max_items as nat,
                )
                &&& drawn_from(
                    after.scroll_stock,
                    self.pools.scrolls,
                    self.config.scroll_ceiling(),
                    self.config.max_scrolls as nat,
                )
            },
            Err(error) => {
                &&& after == Session { stock_error: true, ..self.without_stock() }
                &&& match self.generation_error() {
                    Some(expected) => error == expected,
                    None => error == GenerationError::NoEligibleCandidates && self.may_reject(),
                }
            },
        }
    }

    /// What reloading gives for the bytes of the catalog, or for `None` where
    /// the catalog could not be read.
    pub open spec fn reload_outcome(source: Option<Seq<u8>>) -> Result<Catalog, LoadError> {
        match source {
            Some(data) => load_outcome(csv_records(data)),
            None => Err(LoadError::SourceUnavailable),
        }
    }

    /// The session after reloading the pools from `source`. New pools take
    /// the place of the old ones only where the whole catalog could be
    /// loaded; else the pools stay as they are. The stock lists and the error
    /// flag are not touched.
    pub open spec fn reloaded(self, source: Option<Seq<u8>>) -> Session {
        match Session::reload_outcome(source) {
            Ok(pools) => Session { phase: Phase::PoolsLoaded, pools, ..self },
            Err(LoadError::SourceUnavailable) => Session { phase: Phase::Idle, ..self },
            Err(LoadError::MalformedRow(_)) => self,
        }
    }

    /// The session after a command that the session carries out by itself.
    /// Reloading is left to the caller, who has to fetch the catalog first,
    /// and generating has more than one possible result.
    pub open spec fn after(self, command: Command) -> Session {
        match command {
            Command::Quit => Session { running: false, ..self },
            Command::DismissError => Session { stock_error: false, ..self },
            Command::NextView => Session { tab: (self.tab + 1) % (TAB_COUNT as nat), ..self },
            Command::PreviousView => Session { tab: (self.tab + 3) % (TAB_COUNT as nat), ..self },
            Command::Reload | Command::Generate => self,
        }
    }
}

impl App {
    #[verifier::type_invariant]
    spec fn well_formed(&self) -> bool {
        self@.consistent()
    }

    /// Returns a session with the initial settings.
    pub fn new() -> (app: App)
        ensures
            app@ == Session::initial(Settings::initial()),
            app@.consistent(),
    {
        App::with_configuration(ShopConfiguration::new())
    }

    /// Returns a session with the given settings.
    pub fn with_configuration(config: ShopConfiguration) -> (app: App)
        ensures
            app@ == Session::initial(config@),
            app@.consistent(),
    {
        let app = App {
            running: false,
            stock_error: false,
            phase: Phase::Idle,
            tab: 0,
            config,
            pools: StockPools::new(),
            scroll_stock: Vec::new(),
            item_stock: Vec::new(),
            special_stock: Vec::new(),
        };
        assert(app@.scroll_stock =~= Seq::empty() && app@.item_stock =~= Seq::empty()
            && app@.special_stock =~= Seq::empty());
        app
    }

    /// Tells whether the session is running.
    pub fn is_running(&self) -> (running: bool)
        ensures
            running == self@.running,
    {
        self.running
    }

    /// Tells whether the stock could not be generated when it was last asked
    /// for, and the error was not dismissed since.
    pub fn stock_error(&self) -> (error: bool)
        ensures
            error == self@.stock_error,
    {
        self.stock_error
    }

    /// Returns how far the session has come.
    pub fn phase(&self) -> (phase: Phase)
        ensures
            phase == self@.phase,
    {
        self.phase
    }

    /// Returns the selected tab, which is always one of the pages.
    pub fn tab(&self) -> (tab: usize)
        ensures
            tab == self@.tab,
            tab < TAB_COUNT,
    {
        proof {
            use_type_invariant(self);
        }
        self.tab
    }

    /// Returns the settings.
    pub fn configuration(&self) -> (config: &ShopConfiguration)
        ensures
            config@ == self@.config,
    {
        &self.config
    }

    /// Returns the pools, which always keep scrolls and graded wares apart.
    pub fn pools(&self) -> (pools: &StockPools)
        ensures
            pools@ == self@.pools,
            all_scrolls(self@.pools.scrolls),
            no_scrolls(self@.pools.items),
    {
        proof {
            use_type_invariant(self);
        }
        &self.pools
    }

    /// Returns the sizes of the pools: of the scrolls first, then of the
    /// graded wares.
    pub fn pool_sizes(&self) -> (sizes: (usize, usize))
        ensures
            sizes.0 == self@.pools.scrolls.len(),
            sizes.1 == self@.pools.items.len(),
    {
        (self.pools.scrolls().len(), self.pools.items().len())
    }

    /// Returns the scrolls in stock, which are always scrolls.
    pub fn scroll_stock(&self) -> (stock: &Vec<StockItem>)
        ensures
            entries(stock@) == self@.scroll_stock,
            all_scrolls(self@.scroll_stock),
    {
        proof {
            use_type_invariant(self);
        }
        &self.scroll_stock
    }

    /// Returns the graded wares in stock, none of which is a scroll.
    pub fn item_stock(&self) -> (stock: &Vec<StockItem>)
        ensures
            entries(stock@) == self@.item_stock,
            no_scrolls(self@.item_stock),
    {
        proof {
            use_type_invariant(self);
        }
        &self.item_stock
    }

    /// Returns the special stock, which is always empty: there is no pool to
    /// draw it from.
    pub fn special_stock(&self) -> (stock: &Vec<StockItem>)
        ensures
            entries(stock@) == self@.special_stock,
            stock@.len() == 0,
    {
        proof {
            use_type_invariant(self);
        }
        &self.special_stock
    }

    /// Marks the session as running and takes down the error flag.
    pub fn start(&mut self)
        ensures
            final(self)@ == (Session { running: true, stock_error: false, ..old(self)@ }),
            final(self)@.consistent(),
    {
        proof {
            use_type_invariant(&*self);
        }
        self.running = true;
        self.stock_error = false;
    }

    /// Marks the session as no longer running.
    pub fn quit(&mut self)
        ensures
            final(self)@ == old(self)@.after(Command::Quit),
            final(self)@.consistent(),
    {
        proof {
            use_type_invariant(&*self);
        }
        self.running = false;
    }

    /// Takes down the error flag. Pools and stock stay as they are.
    pub fn dismiss_error(&mut self)
        ensures
            final(self)@ == old(self)@.after(Command::DismissError),
            final(self)@.consistent(),
    {
        proof {
            use_type_invariant(&*self);
        }
        self.stock_error = false;
    }

    /// Selects the next tab, the first after the last.
    pub fn next_tab(&mut self)
        ensures
            final(self)@ == old(self)@.after(Command::NextView),
            final(self)@.consistent(),
    {
        proof {
            use_type_invariant(&*self);
        }
        self.tab = (self.tab + 1) % TAB_COUNT;
    }

    /// Selects the previous tab, the last before the first.
    pub fn previous_tab(&mut self)
        ensures
            final(self)@ == old(self)@.after(Command::PreviousView),
            final(self)@.consistent(),
    {
        proof {
            use_type_invariant(&*self);
        }
        self.tab = (self.tab + 3) % TAB_COUNT;
    }

    /// Loads the pools anew from the bytes of the catalog. The caller reads
    /// the catalog and hands in `None` where it could not be read.
    pub fn update_stock_pools(&mut self, source: Option<&[u8]>) -> (outcome: Result<(), LoadError>)
        ensures
            final(self)@ == old(self)@.reloaded(source_view(source)),
            final(self)@.consistent(),
            match outcome {
                Ok(()) => Session::reload_outcome(source_view(source)) is Ok,
                Err(error) => Session::reload_outcome(source_view(source)) == Err::<
                    Catalog,
                    LoadError,
                >(error),
            },
    {
        proof {
            use_type_invariant(&*self);
        }
        let loaded = match source {
            Some(data) => StockPools::read(data),
            None => Err(LoadError::SourceUnavailable),
        };
        match loaded {
            Ok(pools) => {
                self.pools = pools;
                self.phase = Phase::PoolsLoaded;
                Ok(())
            },
            Err(LoadError::SourceUnavailable) => {
                self.phase = Phase::Idle;
                Err(LoadError::SourceUnavailable)
            },
            Err(error) => Err(error),
        }
    }

    /// Generates the stock anew from the pools, under the ceilings of the
    /// settings.
    pub fn generate_shop(&mut self) -> (outcome: Result<(), GenerationError>)
        ensures
            old(self)@.generated(final(self)@, outcome),
            final(self)@.consistent(),
    {
        proof {
            use_type_invariant(&*self);
        }
        let drawn = self.draw();
        match drawn {
            Ok((scrolls, items)) => {
                self.scroll_stock = scrolls;
                self.item_stock = items;
                self.special_stock = Vec::new();
                self.stock_error = false;
                self.phase = Phase::StockGenerated;
                assert(self@.special_stock =~= Seq::empty());
                Ok(())
            },
            Err(error) => {
                self.scroll_stock = Vec::new();
                self.item_stock = Vec::new();
                self.special_stock = Vec::new();
                self.stock_error = true;
                assert(self@.scroll_stock =~= Seq::empty() && self@.item_stock =~= Seq::empty()
                    && self@.special_stock =~= Seq::empty());
                Err(error)
            },
        }
    }

    /// Tells, without drawing, whether generating stock is bound to fail, and
    /// with which error: `EmptyPool` where a pool is empty, else
    /// `NoEligibleCandidates` where a pool holds no entry below its ceiling.
    pub fn generation_error(&self) -> (error: Option<GenerationError>)
        ensures
            error == self@.generation_error(),
    {
        let item_pool = self.pools.items();
        let scroll_pool = self.pools.scrolls();
        let item_ceiling = Ceiling::Rarity(self.config.max_item_rarity);
        let scroll_ceiling = Ceiling::Level(self.config.max_scroll_level);
        if item_pool.len() == 0 || scroll_pool.len() == 0 {
            Some(GenerationError::EmptyPool)
        } else if count_eligible(item_pool, item_ceiling) == 0 || count_eligible(
            scroll_pool,
            scroll_ceiling,
        ) == 0 {
            Some(GenerationError::NoEligibleCandidates)
        } else {
            None
        }
    }

    /// Draws the two stock lists, the graded wares first, unless generating
    /// is bound to fail: then nothing is drawn.
    fn draw(&self) -> (outcome: Result<(Vec<StockItem>, Vec<StockItem>), GenerationError>)
        ensures
            match outcome {
                Ok((scrolls, items)) => {
                    &&& self@.generation_error() is None
                    &&& drawn_from(
                        entries(items@),
                        self@.pools.items,
                        self@.config.item_ceiling(),
                        self@.config.max_items as nat,
                    )
                    &&& drawn_from(
                        entries(scrolls@),
                        self@.pools.scrolls,
                        self@.config.scroll_ceiling(),
                        self@.config.max_scrolls as nat,
                    )
                    &&& all_scrolls(entries(scrolls@))
                    &&& no_scrolls(entries(items@))
                },
                Err(error) => match self@.generation_error() {
                    Some(expected) => error == expected,
                    None => error == GenerationError::NoEligibleCandidates && self@.may_reject(),
                },
            },
    {
        if let Some(error) = self.generation_error() {
            return Err(error);
        }
        let item_pool = self.pools.items();
        let scroll_pool = self.pools.scrolls();
        let item_ceiling = Ceiling::Rarity(self.config.max_item_rarity);
        let scroll_ceiling = Ceiling::Level(self.config.max_scroll_level);
        let mut rng = rand::rng();
        let items = draw_stock(item_pool, item_ceiling, self.config.max_items, &mut rng)?;
        let scrolls = draw_stock(scroll_pool, scroll_ceiling, self.config.max_scrolls, &mut rng)?;
        proof {
            lemma_drawn_stays_apart(
                entries(items@),
                entries(item_pool@),
                item_ceiling,
                entries(scrolls@),
                entries(scroll_pool@),
                scroll_ceiling,
            );
        }
        Ok((scrolls, items))
    }

    /// Carries out what a key press asks for, but for reloading. The result
    /// says that the key asks for reloading: the caller then reads the
    /// catalog and hands it to `update_stock_pools`.
    pub fn on_key_event(&mut self, key: Key, control: bool) -> (reload: bool)
        ensures
            reload == (Command::of_key(key, control) == Some(Command::Reload)),
            match Command::of_key(key, control) {
                Some(Command::Generate) => exists|outcome: Result<(), GenerationError>|
                    old(self)@.generated(final(self)@, outcome),
                Some(command) => final(self)@ == old(self)@.after(command),
                None => final(self)@ == old(self)@,
            },
            final(self)@.consistent(),
    {
        proof {
            use_type_invariant(&*self);
        }
        match Command::from_key(key, control) {
            Some(Command::Quit) => {
                self.quit();
                false
            },
            Some(Command::Reload) => true,
            Some(Command::Generate) => {
                let outcome = self.generate_shop();
                false
            },
            Some(Command::DismissError) => {
                self.dismiss_error();
                false
            },
            Some(Command::NextView) => {
                self.next_tab();
                false
            },
            Some(Command::PreviousView) => {
                self.previous_tab();
                false
            },
            None => false,
        }
    }
}

/// The bytes that a caller hands in as plain values.
pub open spec fn source_view(source: Option<&[u8]>) -> Option<Seq<u8>> {
    match source {
        Some(data) => Some(data@),
        None => None,
    }
}

/// Stock that was drawn from pools which keep scrolls and graded wares apart
/// keeps them apart too.
proof fn lemma_drawn_stays_apart(
    items: Seq<Entry>,
    item_pool: Seq<Entry>,
    item_ceiling: Ceiling,
    scrolls: Seq<Entry>,
    scroll_pool: Seq<Entry>,
    scroll_ceiling: Ceiling,
)
    requires
        no_scrolls(item_pool),
        all_scrolls(scroll_pool),
        drawn_from(items, item_pool, item_ceiling, items.len()),
        drawn_from(scrolls, scroll_pool, scroll_ceiling, scrolls.len()),
    ensures
        no_scrolls(items),
        all_scrolls(scrolls),
{
    assert forall|i: int| 0 <= i < items.len() implies !((#[trigger] items[i]).kind is Scroll) by {
        item_pool.lemma_filter_contains_rev(below_test(item_ceiling), items[i]);
    }
    assert forall|i: int| 0 <= i < scrolls.len() implies (#[trigger] scrolls[i]).kind is Scroll by {
        scroll_pool.lemma_filter_contains_rev(
            below_test(scroll_ceiling),
            scrolls[i],
        );
    }
}

/// Where a pool is empty, generating stock fails with `EmptyPool`, puts the
/// error flag up and leaves the pools as they are.
pub proof fn lemma_empty_pool_fails(
    before: Session,
    after: Session,
    outcome: Result<(), GenerationError>,
)
    requires
        before.generated(after, outcome),
        before.pools.items.len() == 0 || before.pools.scrolls.len() == 0,
    ensures
        outcome == Err::<(), GenerationError>(GenerationError::EmptyPool),
        after.stock_error,
        after.pools == before.pools,
{
}

/// Where neither pool is empty and one of them holds no entry below its
/// ceiling, generating stock fails with `NoEligibleCandidates`. The error is
/// the one that `App::generation_error` finds without drawing.
pub proof fn lemma_no_eligible_fails(
    before: Session,
    after: Session,
    outcome: Result<(), GenerationError>,
)
    requires
        before.generated(after, outcome),
        before.pools.items.len() > 0,
        before.pools.scrolls.len() > 0,
        eligible(before.pools.items, before.config.item_ceiling()).len() == 0 || eligible(
            before.pools.scrolls,
            before.config.scroll_ceiling(),
        ).len() == 0,
    ensures
        outcome == Err::<(), GenerationError>(GenerationError::NoEligibleCandidates),
        after.stock_error,
        after.pools == before.pools,
{
}

/// Where no candidate can be rejected and each pool holds an entry below its
/// ceiling, generating stock succeeds.
pub proof fn lemma_all_eligible_succeeds(
    before: Session,
    after: Session,
    outcome: Result<(), GenerationError>,
)
    requires
        before.generated(after, outcome),
        before.generation_error() is None,
        !before.may_reject(),
    ensures
        outcome is Ok,
{
}

/// After stock was generated, each list holds exactly as many entries as the
/// settings ask for, every scroll in stock has a level strictly below the
/// level ceiling, and every graded ware in stock that has a rarity has one
/// strictly below the rarity ceiling.
pub proof fn lemma_generated_stock(before: Session, after: Session)
    requires
        before.consistent(),
        before.generated(after, Ok(())),
    ensures
        after.scroll_stock.len() == before.config.max_scrolls,
        after.item_stock.len() == before.config.max_items,
        after.special_stock.len() == 0,
        !after.stock_error,
        forall|i: int|
            0 <= i < after.scroll_stock.len() ==> {
                &&& (#[trigger] after.scroll_stock[i]).kind matches Classification::Scroll { level }
                &&& level < before.config.max_scroll_level
                &&& before.pools.scrolls.contains(after.scroll_stock[i])
            },
        forall|i: int|
            0 <= i < after.item_stock.len() ==> {
                &&& (#[trigger] after.item_stock[i]).kind matches Classification::Graded { rarity }
                &&& rarity matches Some(r) ==> r.rank() < before.config.max_item_rarity.rank()
                &&& before.pools.items.contains(after.item_stock[i])
            },
        after.consistent(),
{
    let scroll_test = below_test(before.config.scroll_ceiling());
    let item_test = below_test(before.config.item_ceiling());
    assert forall|i: int| 0 <= i < after.scroll_stock.len() implies {
        &&& (#[trigger] after.scroll_stock[i]).kind matches Classification::Scroll { level }
        &&& level < before.config.max_scroll_level
        &&& before.pools.scrolls.contains(after.scroll_stock[i])
    } by {
        let entry = after.scroll_stock[i];
        let kept = before.pools.scrolls.filter(scroll_test);
        let k = choose|k: int| 0 <= k < kept.len() && kept[k] == entry;
        before.pools.scrolls.lemma_filter_pred(scroll_test, k);
        before.pools.scrolls.lemma_filter_contains_rev(scroll_test, entry);
    }
    assert forall|i: int| 0 <= i < after.item_stock.len() implies {
        &&& (#[trigger] after.item_stock[i]).kind matches Classification::Graded { rarity }
        &&& rarity matches Some(r) ==> r.rank() < before.config.max_item_rarity.rank()
        &&& before.pools.items.contains(after.item_stock[i])
    } by {
        let entry = after.item_stock[i];
        let kept = before.pools.items.filter(item_test);
        let k = choose|k: int| 0 <= k < kept.len() && kept[k] == entry;
        before.pools.items.lemma_filter_pred(item_test, k);
        before.pools.items.lemma_filter_contains_rev(item_test, entry);
    }
}

/// Reloading from a catalog that has not changed gives the same pools again:
/// a second reload in a row changes nothing, and where the catalog can be
/// loaded, any two sessions that reload from it hold the same pools, entry by
/// entry.
pub proof fn lemma_reload_idempotent(session: Session, other: Session, source: Option<Seq<u8>>)
    ensures
        session.reloaded(source).reloaded(source) == session.reloaded(source),
        Session::reload_outcome(source) is Ok ==> {
            &&& other.reloaded(source).pools == session.reloaded(source).pools
            &&& other.reloaded(source).pools.scrolls.to_multiset() == session.reloaded(
                source,
            ).pools.scrolls.to_multiset()
            &&& other.reloaded(source).pools.items.to_multiset() == session.reloaded(
                source,
            ).pools.items.to_multiset()
        },
{
}

/// A reload that fails leaves the pools as they were, and no reload touches
/// the stock lists or the error flag.
pub proof fn lemma_failed_reload_keeps_pools(session: Session, source: Option<Seq<u8>>)
    ensures
        Session::reload_outcome(source) is Err ==> session.reloaded(source).pools == session.pools,
        session.reloaded(source).scroll_stock == session.scroll_stock,
        session.reloaded(source).item_stock == session.item_stock,
        session.reloaded(source).special_stock == session.special_stock,
        session.reloaded(source).stock_error == session.stock_error,
{
}

/// Reloading keeps a session consistent: the new pools keep scrolls and
/// graded wares apart.
pub proof fn lemma_reload_keeps_consistent(session: Session, source: Option<Seq<u8>>)
    requires
        session.consistent(),
    ensures
        session.reloaded(source).consistent(),
{
    if let Some(data) = source {
        if load_outcome(csv_records(data)) is Ok {
            lemma_pools_are_partitioned(csv_records(data));
        }
    }
}

} // verus!
