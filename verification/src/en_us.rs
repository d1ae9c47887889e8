//! The `en_US` locale's tables.
use vstd::prelude::*;
use crate::locale::{
    template_below, templates_ok,
    AddressData, BaseData, CompanyData, DateTimeData, InternetData, Locale, LocaleId, LoremData,
    PersonData, PhoneNumberData,
};
use crate::table::{running_totals_ok, Country, Table};
use crate::template::{
    all_known, lemma_names_distinct, lemma_names_plain, lemma_pieces_of_text, pieces, segment_of, text_of, tokenize, Formatter, Piece,
    Segment, Template,
};

verus! {

/// The strings of `items`, owned.
pub fn strings(items: &[&str]) -> (v: Vec<String>)
    ensures
        v.len() == items.len(),
        forall|i: int| 0 <= i < items.len() ==> #[trigger] v@[i]@ == items@[i]@,
{
    let mut v: Vec<String> = Vec::new();
    for i in 0..items.len()
        invariant
            v.len() == i,
            forall|j: int| 0 <= j < i ==> #[trigger] v@[j]@ == items@[j]@,
    {
        v.push(items[i].to_owned());
    }
    v
}

/// A uniform table of `items`.
pub fn uniform(items: &[&str]) -> (t: Table<String>)
    ensures
        t.items.len() == items.len(),
        forall|i: int| 0 <= i < items.len() ==> #[trigger] t.items@[i]@ == items@[i]@,
        t.cum_weights is None,
        items.len() > 0 ==> t.wf(),
{
    Table { items: strings(items), cum_weights: None }
}

/// The sum of the first `n` of `weights`, saturating at `u64::MAX` at each step.
pub open spec fn saturating_total(weights: Seq<u64>, n: nat) -> u64
    decreases n,
{
    if n == 0 || n > weights.len() {
        0
    } else {
        let before = saturating_total(weights, (n - 1) as nat);
        if before + weights[n - 1] > u64::MAX {
            u64::MAX
        } else {
            (before + weights[n - 1]) as u64
        }
    }
}

/// The saturating totals never decrease.
proof fn lemma_saturating_total_mono(weights: Seq<u64>, m: nat, n: nat)
    requires
        m <= n <= weights.len(),
    ensures
        saturating_total(weights, m) <= saturating_total(weights, n),
    decreases n - m,
{
    if m < n {
        lemma_saturating_total_mono(weights, m, (n - 1) as nat);
    }
}

/// Running totals of weights whose first is positive are sound running totals.
proof fn lemma_running_totals_ok(weights: Seq<u64>, c: Seq<u64>)
    requires
        weights.len() > 0,
        weights[0] > 0,
        c.len() == weights.len(),
        forall|i: int| 0 <= i < c.len() ==> #[trigger] c[i] == saturating_total(weights, (i + 1) as nat),
    ensures
        running_totals_ok(c, weights.len() as nat),
{
    assert forall|i: int, j: int| 0 <= i <= j < c.len() implies c[i] <= c[j] by {
        lemma_saturating_total_mono(weights, (i + 1) as nat, (j + 1) as nat);
    }
    assert(saturating_total(weights, 0) == 0);
    assert(saturating_total(weights, 1) == weights[0]);
    lemma_saturating_total_mono(weights, 1, weights.len());
    assert(c[c.len() - 1] == saturating_total(weights, weights.len()));
}

/// Running totals of `weights`, saturating at `u64::MAX`.
pub fn running_totals(weights: &[u64]) -> (c: Vec<u64>)
    ensures
        c.len() == weights.len(),
        forall|i: int| 0 <= i < c.len() ==> #[trigger] c@[i] == saturating_total(weights@, (i + 1) as nat),
        weights.len() > 0 && weights@[0] > 0 ==> running_totals_ok(c@, weights.len() as nat),
{
    let mut c: Vec<u64> = Vec::new();
    let mut total: u64 = 0;
    for i in 0..weights.len()
        invariant
            c.len() == i,
            total == saturating_total(weights@, i as nat),
            forall|j: int| 0 <= j < i ==> #[trigger] c@[j] == saturating_total(weights@, (j + 1) as nat),
    {
        total = match total.checked_add(weights[i]) {
            Some(t) => t,
            None => u64::MAX,
        };
        c.push(total);
    }
    proof {
        if weights.len() > 0 && weights@[0] > 0 {
            lemma_running_totals_ok(weights@, c@);
        }
    }
    c
}

/// A weighted table of `items`; `weights` gives each item's weight.
pub fn weighted(items: &[&str], weights: &[u64]) -> (t: Table<String>)
    ensures
        t.items.len() == items.len(),
        forall|i: int| 0 <= i < items.len() ==> #[trigger] t.items@[i]@ == items@[i]@,
        items.len() > 0 && weights.len() == items.len() && weights@[0] > 0 ==> t.wf(),
{
    Table { items: strings(items), cum_weights: Some(running_totals(weights)) }
}

/// Whether every `{{ name }}` token of the template text `text` names a formatter.
#[verifier::opaque]
pub open spec fn names_known(text: Seq<char>) -> bool {
    all_known(pieces(text))
}

/// Every `{{ name }}` token of the template text `text` names a formatter of level below
/// `d`.
pub open spec fn names_below(text: Seq<char>, d: nat) -> bool {
    forall|k: int| 0 <= k < pieces(text).len() ==> (#[trigger] pieces(text)[k] matches Piece::Name(n) ==> exists|
        f: Formatter,
    | f.name_spec() == n && f.level() < d)
}

/// Names below `e` are below any larger `d` too.
pub proof fn lemma_names_below_mono(text: Seq<char>, e: nat, d: nat)
    requires
        names_below(text, e),
        e <= d,
    ensures
        names_below(text, d),
{
    assert forall|k: int| 0 <= k < pieces(text).len() implies (#[trigger] pieces(text)[k] matches Piece::Name(n) ==> exists|
        f: Formatter,
    | f.name_spec() == n && f.level() < d) by {
        if let Piece::Name(n) = pieces(text)[k] {
            let f = choose|f: Formatter| f.name_spec() == n && f.level() < e;
        }
    }
}

/// A template tokenized from text whose names are all below `d` has only tokens below `d`.
pub proof fn lemma_tokenized_below(segs: Seq<Segment>, text: Seq<char>, d: nat)
    requires
        tokenized_as(segs, text),
        names_below(text, d),
    ensures
        template_below(segs, d),
{
    assert forall|j: int| 0 <= j < segs.len() implies (#[trigger] segs[j] matches Segment::Token(g) ==> g.level() < d) by {
        if let Segment::Token(g) = segs[j] {
            assert(segment_of(segs[j], pieces(text)[j]));
            if let Piece::Name(n) = pieces(text)[j] {
                let f = choose|f: Formatter| f.name_spec() == n && f.level() < d;
                if g != f {
                    lemma_names_distinct(g, f);
                }
            }
        }
    }
}

/// A table tokenized from `texts`, whose names are all below `d`, holds only templates
/// with tokens below `d`.
pub proof fn lemma_group_below(t: Table<Template>, texts: Seq<&str>, d: nat)
    requires
        t.items.len() == texts.len(),
        forall|i: int| 0 <= i < texts.len() ==> tokenized_as(#[trigger] t.items@[i]@, texts[i]@),
        forall|i: int| 0 <= i < texts.len() ==> names_below(#[trigger] texts[i]@, d),
    ensures
        forall|i: int| 0 <= i < t.items.len() ==> template_below(#[trigger] t.items@[i]@, d),
{
    assert forall|i: int| 0 <= i < t.items.len() implies template_below(#[trigger] t.items@[i]@, d) by {
        lemma_tokenized_below(t.items@[i]@, texts[i]@, d);
    }
}

/// Whether `segs` is the tokenized form of the template text `text`: one segment per
/// scanned piece, in order.
pub open spec fn tokenized_as(segs: Seq<Segment>, text: Seq<char>) -> bool {
    &&& segs.len() == pieces(text).len()
    &&& forall|k: int| 0 <= k < segs.len() ==> segment_of(#[trigger] segs[k], pieces(text)[k])
}

/// A table of templates tokenized from `items`, uniform or weighted; `None` when a template
/// names no formatter.
pub fn templates(items: &[&str], weights: Option<&[u64]>) -> (t: Option<Table<Template>>)
    ensures
        t is None <==> exists|i: int| 0 <= i < items.len() && !names_known(#[trigger] items@[i]@),
        t matches Some(table) ==> {
            &&& table.items.len() == items.len()
            &&& forall|i: int| 0 <= i < items.len() ==> tokenized_as(#[trigger] table.items@[i]@, items@[i]@)
            &&& match weights {
                Some(w) => table.cum_weights matches Some(c) && c.len() == w.len() && forall|i: int|
                    0 <= i < w.len() ==> #[trigger] c@[i] == saturating_total(w@, (i + 1) as nat),
                None => table.cum_weights is None,
            }
            &&& (items.len() > 0 && (weights matches Some(w) ==> w.len() == items.len() && w@[0] > 0)
                ==> table.wf())
        },
{
    let mut parsed: Vec<Template> = Vec::new();
    for i in 0..items.len()
        invariant
            parsed.len() == i,
            forall|j: int| 0 <= j < i ==> tokenized_as(#[trigger] parsed@[j]@, items@[j]@),
            forall|j: int| 0 <= j < i ==> names_known(#[trigger] items@[j]@),
    {
        proof {
            reveal(names_known);
        }
        match tokenize(items[i]) {
            Ok(t) => parsed.push(t),
            Err(_) => {
                assert(!names_known(items@[i as int]@));
                return None;
            },
        }
    }
    let cum_weights = match weights {
        Some(w) => Some(running_totals(w)),
        None => None,
    };
    Some(Table { items: parsed, cum_weights })
}


/// The `en_US` lorem words: none of them is empty.
fn en_us_lorem_words() -> (t: Table<String>)
    ensures
        t.wf(),
        t.cum_weights is None,
        forall|i: int| 0 <= i < t.items.len() ==> (#[trigger] t.items@[i])@.len() > 0,
{
    let t = uniform(&["a", "ability", "able", "about", "above", "accept", "according", "account", "across", "act", "action", "activity", "actually", "add", "address", "administration", "admit", "adult", "affect", "after", "again", "against", "age", "agency", "agent", "ago", "agree", "agreement", "ahead", "air", "all", "allow", "almost", "alone", "along", "already", "also", "although", "always", "American", "among", "amount", "analysis", "and", "animal", "another", "answer", "any", "anyone", "anything", "appear", "apply", "approach", "area", "argue", "arm", "around", "arrive", "art", "article", "artist", "as", "ask", "assume", "at", "attack", "attention", "attorney", "audience", "author", "authority", "available", "avoid", "away", "baby", "back", "bad", "bag", "ball", "bank", "bar", "base", "be", "beat", "beautiful", "because", "become", "bed", "before", "begin", "behavior", "behind", "believe", "benefit", "best", "better", "between", "beyond", "big", "bill", "billion", "bit", "black", "blood", "blue", "board", "body", "book", "born", "both", "box", "boy", "break", "bring", "brother", "budget", "build", "building", "business", "but", "buy", "by", "call", "camera", "campaign", "can", "cancer", "candidate", "capital", "car", "card", "care", "career", "carry", "case", "catch", "cause", "cell", "center", "central", "century", "certain", "certainly", "chair", "challenge", "chance", "change", "character", "charge", "check", "child", "choice", "choose", "church", "citizen", "city", "civil", "claim", "class", "clear", "clearly", "close", "coach", "cold", "collection", "college", "color", "come", "commercial", "common", "community", "company", "compare", "computer", "concern", "condition", "conference", "Congress", "consider", "consumer", "contain", "continue", "control", "cost", "could", "country", "couple", "course", "court", "cover", "create", "crime", "cultural", "culture", "cup", "current", "customer", "cut", "dark", "data", "daughter", "day", "dead", "deal", "death", "debate", "decade", "decide", "decision", "deep", "defense", "degree", "Democrat", "democratic", "describe", "design", "despite", "detail", "determine", "develop", "development", "die", "difference", "different", "difficult", "dinner", "direction", "director", "discover", "discuss", "discussion", "disease", "do", "doctor", "dog", "door", "down", "draw", "dream", "drive", "drop", "drug", "during", "each", "early", "east", "easy", "eat", "economic", "economy", "edge", "education", "effect", "effort", "eight", "either", "election", "else", "employee", "end", "energy", "enjoy", "enough", "enter", "entire", "environment", "environmental", "especially", "establish", "even", "evening", "event", "ever", "every", "everybody", "everyone", "everything", "evidence", "exactly", "example", "executive", "exist", "expect", "experience", "expert", "explain", "eye", "face", "fact", "factor", "fail", "fall", "family", "far", "fast", "father", "fear", "federal", "feel", "feeling", "few", "field", "fight", "figure", "fill", "film", "final", "finally", "financial", "find", "fine", "finger", "finish", "fire", "firm", "first", "fish", "five", "floor", "fly", "focus", "follow", "food", "foot", "for", "force", "foreign", "forget", "form", "former", "forward", "four", "free", "friend", "from", "front", "full", "fund", "future", "game", "garden", "gas", "general", "generation", "get", "girl", "give", "glass", "go", "goal", "good", "government", "great", "green", "ground", "group", "grow", "growth", "guess", "gun", "guy", "hair", "half", "hand", "hang", "happen", "happy", "hard", "have", "he", "head", "health", "hear", "heart", "heat", "heavy", "help", "her", "here", "herself", "high", "him", "himself", "his", "history", "hit", "hold", "home", "hope", "hospital", "hot", "hotel", "hour", "house", "how", "however", "huge", "human", "hundred", "husband", "idea", "identify", "if", "image", "imagine", "impact", "important", "improve", "in", "include", "including", "increase", "indeed", "indicate", "individual", "industry", "information", "inside", "instead", "institution", "interest", "interesting", "international", "interview", "into", "investment", "involve", "issue", "it", "item", "its", "itself", "job", "join", "just", "keep", "key", "kid", "kill", "kind", "kitchen", "know", "knowledge", "land", "language", "large", "last", "late", "later", "laugh", "law", "lawyer", "lay", "lead", "leader", "learn", "least", "leave", "left", "leg", "legal", "less", "let", "letter", "level", "lie", "life", "light", "like", "likely", "line", "list", "listen", "little", "live", "local", "long", "look", "lose", "loss", "lot", "love", "low", "machine", "magazine", "main", "maintain", "major", "majority", "make", "man", "manage", "management", "manager", "many", "market", "marriage", "material", "matter", "may", "maybe", "me", "mean", "measure", "media", "medical", "meet", "meeting", "member", "memory", "mention", "message", "method", "middle", "might", "military", "million", "mind", "minute", "miss", "mission", "model", "modern", "moment", "money", "month", "more", "morning", "most", "mother", "mouth", "move", "movement", "movie", "Mr", "Mrs", "much", "music", "must", "my", "myself", "name", "nation", "national", "natural", "nature", "near", "nearly", "necessary", "need", "network", "never", "new", "news", "newspaper", "next", "nice", "night", "no", "none", "nor", "north", "not", "note", "nothing", "notice", "now", "number", "occur", "of", "off", "offer", "office", "officer", "official", "often", "oil", "ok", "old", "on", "once", "one", "only", "onto", "open", "operation", "opportunity", "option", "or", "order", "organization", "other", "others", "our", "out", "outside", "over", "own", "owner", "page", "pain", "painting", "paper", "parent", "part", "participant", "particular", "particularly", "partner", "party", "pass", "past", "patient", "pattern", "pay", "peace", "people", "per", "perform", "performance", "perhaps", "period", "person", "personal", "phone", "physical", "pick", "picture", "piece", "place", "plan", "plant", "play", "player", "PM", "point", "police", "policy", "political", "politics", "poor", "popular", "population", "position", "positive", "possible", "power", "practice", "prepare", "present", "president", "pressure", "pretty", "prevent", "price", "private", "probably", "problem", "process", "produce", "product", "production", "professional", "professor", "program", "project", "property", "protect", "prove", "provide", "public", "pull", "purpose", "push", "put", "quality", "question", "quickly", "quite", "race", "radio", "raise", "range", "rate", "rather", "reach", "read", "ready", "real", "reality", "realize", "really", "reason", "receive", "recent", "recently", "recognize", "record", "red", "reduce", "reflect", "region", "relate", "relationship", "religious", "remain", "remember", "remove", "report", "represent", "Republican", "require", "research", "resource", "respond", "response", "responsibility", "rest", "result", "return", "reveal", "rich", "right", "rise", "risk", "road", "rock", "role", "room", "rule", "run", "safe", "same", "save", "say", "scene", "school", "science", "scientist", "score", "sea", "season", "seat", "second", "section", "security", "see", "seek", "seem", "sell", "send", "senior", "sense", "series", "serious", "serve", "service", "set", "seven", "several", "shake", "share", "she", "shoot", "short", "shot", "should", "shoulder", "show", "side", "sign", "significant", "similar", "simple", "simply", "since", "sing", "single", "sister", "sit", "site", "situation", "six", "size", "skill", "skin", "small", "smile", "so", "social", "society", "soldier", "some", "somebody", "someone", "something", "sometimes", "son", "song", "soon", "sort", "sound", "source", "south", "southern", "space", "speak", "special", "specific", "speech", "spend", "sport", "spring", "staff", "stage", "stand", "standard", "star", "start", "state", "statement", "station", "stay", "step", "still", "stock", "stop", "store", "story", "strategy", "street", "strong", "structure", "student", "study", "stuff", "style", "subject", "success", "successful", "such", "suddenly", "suffer", "suggest", "summer", "support", "sure", "surface", "system", "table", "take", "talk", "task", "tax", "teach", "teacher", "team", "technology", "television", "tell", "ten", "tend", "term", "test", "than", "thank", "that", "the", "their", "them", "themselves", "then", "theory", "there", "these", "they", "thing", "think", "third", "this", "those", "though", "thought", "thousand", "threat", "three", "through", "throughout", "throw", "thus", "time", "to", "today", "together", "tonight", "too", "top", "total", "tough", "toward", "town", "trade", "traditional", "training", "travel", "treat", "treatment", "tree", "trial", "trip", "trouble", "true", "truth", "try", "turn", "TV", "two", "type", "under", "understand", "unit", "until", "up", "upon", "us", "use", "usually", "value", "various", "very", "victim", "view", "violence", "visit", "voice", "vote", "wait", "walk", "wall", "want", "war", "watch", "water", "way", "we", "weapon", "wear", "week", "weight", "well", "west", "western", "what", "whatever", "when", "where", "whether", "which", "while", "white", "who", "whole", "whom", "whose", "why", "wide", "wife", "will", "win", "wind", "window", "wish", "with", "within", "without", "woman", "wonder", "word", "work", "worker", "world", "worry", "would", "write", "writer", "wrong", "yard", "yeah", "year", "yes", "yet", "you", "young", "your", "yourself"]);
    proof {
        reveal_strlit("a");
        reveal_strlit("ability");
        reveal_strlit("able");
        reveal_strlit("about");
        reveal_strlit("above");
        reveal_strlit("accept");
        reveal_strlit("according");
        reveal_strlit("account");
        reveal_strlit("across");
        reveal_strlit("act");
        reveal_strlit("action");
        reveal_strlit("activity");
        reveal_strlit("actually");
        reveal_strlit("add");
        reveal_strlit("address");
        reveal_strlit("administration");
        reveal_strlit("admit");
        reveal_strlit("adult");
        reveal_strlit("affect");
        reveal_strlit("after");
        reveal_strlit("again");
        reveal_strlit("against");
        reveal_strlit("age");
        reveal_strlit("agency");
        reveal_strlit("agent");
        reveal_strlit("ago");
        reveal_strlit("agree");
        reveal_strlit("agreement");
        reveal_strlit("ahead");
        reveal_strlit("air");
        reveal_strlit("all");
        reveal_strlit("allow");
        reveal_strlit("almost");
        reveal_strlit("alone");
        reveal_strlit("along");
        reveal_strlit("already");
        reveal_strlit("also");
        reveal_strlit("although");
        reveal_strlit("always");
        reveal_strlit("American");
        reveal_strlit("among");
        reveal_strlit("amount");
        reveal_strlit("analysis");
        reveal_strlit("and");
        reveal_strlit("animal");
        reveal_strlit("another");
        reveal_strlit("answer");
        reveal_strlit("any");
        reveal_strlit("anyone");
        reveal_strlit("anything");
        reveal_strlit("appear");
        reveal_strlit("apply");
        reveal_strlit("approach");
        reveal_strlit("area");
        reveal_strlit("argue");
        reveal_strlit("arm");
        reveal_strlit("around");
        reveal_strlit("arrive");
        reveal_strlit("art");
        reveal_strlit("article");
        reveal_strlit("artist");
        reveal_strlit("as");
        reveal_strlit("ask");
        reveal_strlit("assume");
        reveal_strlit("at");
        reveal_strlit("attack");
        reveal_strlit("attention");
        reveal_strlit("attorney");
        reveal_strlit("audience");
        reveal_strlit("author");
        reveal_strlit("authority");
        reveal_strlit("available");
        reveal_strlit("avoid");
        reveal_strlit("away");
        reveal_strlit("baby");
        reveal_strlit("back");
        reveal_strlit("bad");
        reveal_strlit("bag");
        reveal_strlit("ball");
        reveal_strlit("bank");
        reveal_strlit("bar");
        reveal_strlit("base");
        reveal_strlit("be");
        reveal_strlit("beat");
        reveal_strlit("beautiful");
        reveal_strlit("because");
        reveal_strlit("become");
        reveal_strlit("bed");
        reveal_strlit("before");
        reveal_strlit("begin");
        reveal_strlit("behavior");
        reveal_strlit("behind");
        reveal_strlit("believe");
        reveal_strlit("benefit");
        reveal_strlit("best");
        reveal_strlit("better");
        reveal_strlit("between");
        reveal_strlit("beyond");
        reveal_strlit("big");
        reveal_strlit("bill");
        reveal_strlit("billion");
        reveal_strlit("bit");
        reveal_strlit("black");
        reveal_strlit("blood");
        reveal_strlit("blue");
        reveal_strlit("board");
        reveal_strlit("body");
        reveal_strlit("book");
        reveal_strlit("born");
        reveal_strlit("both");
        reveal_strlit("box");
        reveal_strlit("boy");
        reveal_strlit("break");
        reveal_strlit("bring");
        reveal_strlit("brother");
        reveal_strlit("budget");
        reveal_strlit("build");
        reveal_strlit("building");
        reveal_strlit("business");
        reveal_strlit("but");
        reveal_strlit("buy");
        reveal_strlit("by");
        reveal_strlit("call");
        reveal_strlit("camera");
        reveal_strlit("campaign");
        reveal_strlit("can");
        reveal_strlit("cancer");
        reveal_strlit("candidate");
        reveal_strlit("capital");
        reveal_strlit("car");
        reveal_strlit("card");
        reveal_strlit("care");
        reveal_strlit("career");
        reveal_strlit("carry");
        reveal_strlit("case");
        reveal_strlit("catch");
        reveal_strlit("cause");
        reveal_strlit("cell");
        reveal_strlit("center");
        reveal_strlit("central");
        reveal_strlit("century");
        reveal_strlit("certain");
        reveal_strlit("certainly");
        reveal_strlit("chair");
        reveal_strlit("challenge");
        reveal_strlit("chance");
        reveal_strlit("change");
        reveal_strlit("character");
        reveal_strlit("charge");
        reveal_strlit("check");
        reveal_strlit("child");
        reveal_strlit("choice");
        reveal_strlit("choose");
        reveal_strlit("church");
        reveal_strlit("citizen");
        reveal_strlit("city");
        reveal_strlit("civil");
        reveal_strlit("claim");
        reveal_strlit("class");
        reveal_strlit("clear");
        reveal_strlit("clearly");
        reveal_strlit("close");
        reveal_strlit("coach");
        reveal_strlit("cold");
        reveal_strlit("collection");
        reveal_strlit("college");
        reveal_strlit("color");
        reveal_strlit("come");
        reveal_strlit("commercial");
        reveal_strlit("common");
        reveal_strlit("community");
        reveal_strlit("company");
        reveal_strlit("compare");
        reveal_strlit("computer");
        reveal_strlit("concern");
        reveal_strlit("condition");
        reveal_strlit("conference");
        reveal_strlit("Congress");
        reveal_strlit("consider");
        reveal_strlit("consumer");
        reveal_strlit("contain");
        reveal_strlit("continue");
        reveal_strlit("control");
        reveal_strlit("cost");
        reveal_strlit("could");
        reveal_strlit("country");
        reveal_strlit("couple");
        reveal_strlit("course");
        reveal_strlit("court");
        reveal_strlit("cover");
        reveal_strlit("create");
        reveal_strlit("crime");
        reveal_strlit("cultural");
        reveal_strlit("culture");
        reveal_strlit("cup");
        reveal_strlit("current");
        reveal_strlit("customer");
        reveal_strlit("cut");
        reveal_strlit("dark");
        reveal_strlit("data");
        reveal_strlit("daughter");
        reveal_strlit("day");
        reveal_strlit("dead");
        reveal_strlit("deal");
        reveal_strlit("death");
        reveal_strlit("debate");
        reveal_strlit("decade");
        reveal_strlit("decide");
        reveal_strlit("decision");
        reveal_strlit("deep");
        reveal_strlit("defense");
        reveal_strlit("degree");
        reveal_strlit("Democrat");
        reveal_strlit("democratic");
        reveal_strlit("describe");
        reveal_strlit("design");
        reveal_strlit("despite");
        reveal_strlit("detail");
        reveal_strlit("determine");
        reveal_strlit("develop");
        reveal_strlit("development");
        reveal_strlit("die");
        reveal_strlit("difference");
        reveal_strlit("different");
        reveal_strlit("difficult");
        reveal_strlit("dinner");
        reveal_strlit("direction");
        reveal_strlit("director");
        reveal_strlit("discover");
        reveal_strlit("discuss");
        reveal_strlit("discussion");
        reveal_strlit("disease");
        reveal_strlit("do");
        reveal_strlit("doctor");
        reveal_strlit("dog");
        reveal_strlit("door");
        reveal_strlit("down");
        reveal_strlit("draw");
        reveal_strlit("dream");
        reveal_strlit("drive");
        reveal_strlit("drop");
        reveal_strlit("drug");
        reveal_strlit("during");
        reveal_strlit("each");
        reveal_strlit("early");
        reveal_strlit("east");
        reveal_strlit("easy");
        reveal_strlit("eat");
        reveal_strlit("economic");
        reveal_strlit("economy");
        reveal_strlit("edge");
        reveal_strlit("education");
        reveal_strlit("effect");
        reveal_strlit("effort");
        reveal_strlit("eight");
        reveal_strlit("either");
        reveal_strlit("election");
        reveal_strlit("else");
        reveal_strlit("employee");
        reveal_strlit("end");
        reveal_strlit("energy");
        reveal_strlit("enjoy");
        reveal_strlit("enough");
        reveal_strlit("enter");
        reveal_strlit("entire");
        reveal_strlit("environment");
        reveal_strlit("environmental");
        reveal_strlit("especially");
        reveal_strlit("establish");
        reveal_strlit("even");
        reveal_strlit("evening");
        reveal_strlit("event");
        reveal_strlit("ever");
        reveal_strlit("every");
        reveal_strlit("everybody");
        reveal_strlit("everyone");
        reveal_strlit("everything");
        reveal_strlit("evidence");
        reveal_strlit("exactly");
        reveal_strlit("example");
        reveal_strlit("executive");
        reveal_strlit("exist");
        reveal_strlit("expect");
        reveal_strlit("experience");
        reveal_strlit("expert");
        reveal_strlit("explain");
        reveal_strlit("eye");
        reveal_strlit("face");
        reveal_strlit("fact");
        reveal_strlit("factor");
        reveal_strlit("fail");
        reveal_strlit("fall");
        reveal_strlit("family");
        reveal_strlit("far");
        reveal_strlit("fast");
        reveal_strlit("father");
        reveal_strlit("fear");
        reveal_strlit("federal");
        reveal_strlit("feel");
        reveal_strlit("feeling");
        reveal_strlit("few");
        reveal_strlit("field");
        reveal_strlit("fight");
        reveal_strlit("figure");
        reveal_strlit("fill");
        reveal_strlit("film");
        reveal_strlit("final");
        reveal_strlit("finally");
        reveal_strlit("financial");
        reveal_strlit("find");
        reveal_strlit("fine");
        reveal_strlit("finger");
        reveal_strlit("finish");
        reveal_strlit("fire");
        reveal_strlit("firm");
        reveal_strlit("first");
        reveal_strlit("fish");
        reveal_strlit("five");
        reveal_strlit("floor");
        reveal_strlit("fly");
        reveal_strlit("focus");
        reveal_strlit("follow");
        reveal_strlit("food");
        reveal_strlit("foot");
        reveal_strlit("for");
        reveal_strlit("force");
        reveal_strlit("foreign");
        reveal_strlit("forget");
        reveal_strlit("form");
        reveal_strlit("former");
        reveal_strlit("forward");
        reveal_strlit("four");
        reveal_strlit("free");
        reveal_strlit("friend");
        reveal_strlit("from");
        reveal_strlit("front");
        reveal_strlit("full");
        reveal_strlit("fund");
        reveal_strlit("future");
        reveal_strlit("game");
        reveal_strlit("garden");
        reveal_strlit("gas");
        reveal_strlit("general");
        reveal_strlit("generation");
        reveal_strlit("get");
        reveal_strlit("girl");
        reveal_strlit("give");
        reveal_strlit("glass");
        reveal_strlit("go");
        reveal_strlit("goal");
        reveal_strlit("good");
        reveal_strlit("government");
        reveal_strlit("great");
        reveal_strlit("green");
        reveal_strlit("ground");
        reveal_strlit("group");
        reveal_strlit("grow");
        reveal_strlit("growth");
        reveal_strlit("guess");
        reveal_strlit("gun");
        reveal_strlit("guy");
        reveal_strlit("hair");
        reveal_strlit("half");
        reveal_strlit("hand");
        reveal_strlit("hang");
        reveal_strlit("happen");
        reveal_strlit("happy");
        reveal_strlit("hard");
        reveal_strlit("have");
        reveal_strlit("he");
        reveal_strlit("head");
        reveal_strlit("health");
        reveal_strlit("hear");
        reveal_strlit("heart");
        reveal_strlit("heat");
        reveal_strlit("heavy");
        reveal_strlit("help");
        reveal_strlit("her");
        reveal_strlit("here");
        reveal_strlit("herself");
        reveal_strlit("high");
        reveal_strlit("him");
        reveal_strlit("himself");
        reveal_strlit("his");
        reveal_strlit("history");
        reveal_strlit("hit");
        reveal_strlit("hold");
        reveal_strlit("home");
        reveal_strlit("hope");
        reveal_strlit("hospital");
        reveal_strlit("hot");
        reveal_strlit("hotel");
        reveal_strlit("hour");
        reveal_strlit("house");
        reveal_strlit("how");
        reveal_strlit("however");
        reveal_strlit("huge");
        reveal_strlit("human");
        reveal_strlit("hundred");
        reveal_strlit("husband");
        reveal_strlit("idea");
        reveal_strlit("identify");
        reveal_strlit("if");
        reveal_strlit("image");
        reveal_strlit("imagine");
        reveal_strlit("impact");
        reveal_strlit("important");
        reveal_strlit("improve");
        reveal_strlit("in");
        reveal_strlit("include");
        reveal_strlit("including");
        reveal_strlit("increase");
        reveal_strlit("indeed");
        reveal_strlit("indicate");
        reveal_strlit("individual");
        reveal_strlit("industry");
        reveal_strlit("information");
        reveal_strlit("inside");
        reveal_strlit("instead");
        reveal_strlit("institution");
        reveal_strlit("interest");
        reveal_strlit("interesting");
        reveal_strlit("international");
        reveal_strlit("interview");
        reveal_strlit("into");
        reveal_strlit("investment");
        reveal_strlit("involve");
        reveal_strlit("issue");
        reveal_strlit("it");
        reveal_strlit("item");
        reveal_strlit("its");
        reveal_strlit("itself");
        reveal_strlit("job");
        reveal_strlit("join");
        reveal_strlit("just");
        reveal_strlit("keep");
        reveal_strlit("key");
        reveal_strlit("kid");
        reveal_strlit("kill");
        reveal_strlit("kind");
        reveal_strlit("kitchen");
        reveal_strlit("know");
        reveal_strlit("knowledge");
        reveal_strlit("land");
        reveal_strlit("language");
        reveal_strlit("large");
        reveal_strlit("last");
        reveal_strlit("late");
        reveal_strlit("later");
        reveal_strlit("laugh");
        reveal_strlit("law");
        reveal_strlit("lawyer");
        reveal_strlit("lay");
        reveal_strlit("lead");
        reveal_strlit("leader");
        reveal_strlit("learn");
        reveal_strlit("least");
        reveal_strlit("leave");
        reveal_strlit("left");
        reveal_strlit("leg");
        reveal_strlit("legal");
        reveal_strlit("less");
        reveal_strlit("let");
        reveal_strlit("letter");
        reveal_strlit("level");
        reveal_strlit("lie");
        reveal_strlit("life");
        reveal_strlit("light");
        reveal_strlit("like");
        reveal_strlit("likely");
        reveal_strlit("line");
        reveal_strlit("list");
        reveal_strlit("listen");
        reveal_strlit("little");
        reveal_strlit("live");
        reveal_strlit("local");
        reveal_strlit("long");
        reveal_strlit("look");
        reveal_strlit("lose");
        reveal_strlit("loss");
        reveal_strlit("lot");
        reveal_strlit("love");
        reveal_strlit("low");
        reveal_strlit("machine");
        reveal_strlit("magazine");
        reveal_strlit("main");
        reveal_strlit("maintain");
        reveal_strlit("major");
        reveal_strlit("majority");
        reveal_strlit("make");
        reveal_strlit("man");
        reveal_strlit("manage");
        reveal_strlit("management");
        reveal_strlit("manager");
        reveal_strlit("many");
        reveal_strlit("market");
        reveal_strlit("marriage");
        reveal_strlit("material");
        reveal_strlit("matter");
        reveal_strlit("may");
        reveal_strlit("maybe");
        reveal_strlit("me");
        reveal_strlit("mean");
        reveal_strlit("measure");
        reveal_strlit("media");
        reveal_strlit("medical");
        reveal_strlit("meet");
        reveal_strlit("meeting");
        reveal_strlit("member");
        reveal_strlit("memory");
        reveal_strlit("mention");
        reveal_strlit("message");
        reveal_strlit("method");
        reveal_strlit("middle");
        reveal_strlit("might");
        reveal_strlit("military");
        reveal_strlit("million");
        reveal_strlit("mind");
        reveal_strlit("minute");
        reveal_strlit("miss");
        reveal_strlit("mission");
        reveal_strlit("model");
        reveal_strlit("modern");
        reveal_strlit("moment");
        reveal_strlit("money");
        reveal_strlit("month");
        reveal_strlit("more");
        reveal_strlit("morning");
        reveal_strlit("most");
        reveal_strlit("mother");
        reveal_strlit("mouth");
        reveal_strlit("move");
        reveal_strlit("movement");
        reveal_strlit("movie");
        reveal_strlit("Mr");
        reveal_strlit("Mrs");
        reveal_strlit("much");
        reveal_strlit("music");
        reveal_strlit("must");
        reveal_strlit("my");
        reveal_strlit("myself");
        reveal_strlit("name");
        reveal_strlit("nation");
        reveal_strlit("national");
        reveal_strlit("natural");
        reveal_strlit("nature");
        reveal_strlit("near");
        reveal_strlit("nearly");
        reveal_strlit("necessary");
        reveal_strlit("need");
        reveal_strlit("network");
        reveal_strlit("never");
        reveal_strlit("new");
        reveal_strlit("news");
        reveal_strlit("newspaper");
        reveal_strlit("next");
        reveal_strlit("nice");
        reveal_strlit("night");
        reveal_strlit("no");
        reveal_strlit("none");
        reveal_strlit("nor");
        reveal_strlit("north");
        reveal_strlit("not");
        reveal_strlit("note");
        reveal_strlit("nothing");
        reveal_strlit("notice");
        reveal_strlit("now");
        reveal_strlit("number");
        reveal_strlit("occur");
        reveal_strlit("of");
        reveal_strlit("off");
        reveal_strlit("offer");
        reveal_strlit("office");
        reveal_strlit("officer");
        reveal_strlit("official");
        reveal_strlit("often");
        reveal_strlit("oil");
        reveal_strlit("ok");
        reveal_strlit("old");
        reveal_strlit("on");
        reveal_strlit("once");
        reveal_strlit("one");
        reveal_strlit("only");
        reveal_strlit("onto");
        reveal_strlit("open");
        reveal_strlit("operation");
        reveal_strlit("opportunity");
        reveal_strlit("option");
        reveal_strlit("or");
        reveal_strlit("order");
        reveal_strlit("organization");
        reveal_strlit("other");
        reveal_strlit("others");
        reveal_strlit("our");
        reveal_strlit("out");
        reveal_strlit("outside");
        reveal_strlit("over");
        reveal_strlit("own");
        reveal_strlit("owner");
        reveal_strlit("page");
        reveal_strlit("pain");
        reveal_strlit("painting");
        reveal_strlit("paper");
        reveal_strlit("parent");
        reveal_strlit("part");
        reveal_strlit("participant");
        reveal_strlit("particular");
        reveal_strlit("particularly");
        reveal_strlit("partner");
        reveal_strlit("party");
        reveal_strlit("pass");
        reveal_strlit("past");
        reveal_strlit("patient");
        reveal_strlit("pattern");
        reveal_strlit("pay");
        reveal_strlit("peace");
        reveal_strlit("people");
        reveal_strlit("per");
        reveal_strlit("perform");
        reveal_strlit("performance");
        reveal_strlit("perhaps");
        reveal_strlit("period");
        reveal_strlit("person");
        reveal_strlit("personal");
        reveal_strlit("phone");
        reveal_strlit("physical");
        reveal_strlit("pick");
        reveal_strlit("picture");
        reveal_strlit("piece");
        reveal_strlit("place");
        reveal_strlit("plan");
        reveal_strlit("plant");
        reveal_strlit("play");
        reveal_strlit("player");
        reveal_strlit("PM");
        reveal_strlit("point");
        reveal_strlit("police");
        reveal_strlit("policy");
        reveal_strlit("political");
        reveal_strlit("politics");
        reveal_strlit("poor");
        reveal_strlit("popular");
        reveal_strlit("population");
        reveal_strlit("position");
        reveal_strlit("positive");
        reveal_strlit("possible");
        reveal_strlit("power");
        reveal_strlit("practice");
        reveal_strlit("prepare");
        reveal_strlit("present");
        reveal_strlit("president");
        reveal_strlit("pressure");
        reveal_strlit("pretty");
        reveal_strlit("prevent");
        reveal_strlit("price");
        reveal_strlit("private");
        reveal_strlit("probably");
        reveal_strlit("problem");
        reveal_strlit("process");
        reveal_strlit("produce");
        reveal_strlit("product");
        reveal_strlit("production");
        reveal_strlit("professional");
        reveal_strlit("professor");
        reveal_strlit("program");
        reveal_strlit("project");
        reveal_strlit("property");
        reveal_strlit("protect");
        reveal_strlit("prove");
        reveal_strlit("provide");
        reveal_strlit("public");
        reveal_strlit("pull");
        reveal_strlit("purpose");
        reveal_strlit("push");
        reveal_strlit("put");
        reveal_strlit("quality");
        reveal_strlit("question");
        reveal_strlit("quickly");
        reveal_strlit("quite");
        reveal_strlit("race");
        reveal_strlit("radio");
        reveal_strlit("raise");
        reveal_strlit("range");
        reveal_strlit("rate");
        reveal_strlit("rather");
        reveal_strlit("reach");
        reveal_strlit("read");
        reveal_strlit("ready");
        reveal_strlit("real");
        reveal_strlit("reality");
        reveal_strlit("realize");
        reveal_strlit("really");
        reveal_strlit("reason");
        reveal_strlit("receive");
        reveal_strlit("recent");
        reveal_strlit("recently");
        reveal_strlit("recognize");
        reveal_strlit("record");
        reveal_strlit("red");
        reveal_strlit("reduce");
        reveal_strlit("reflect");
        reveal_strlit("region");
        reveal_strlit("relate");
        reveal_strlit("relationship");
        reveal_strlit("religious");
        reveal_strlit("remain");
        reveal_strlit("remember");
        reveal_strlit("remove");
        reveal_strlit("report");
        reveal_strlit("represent");
        reveal_strlit("Republican");
        reveal_strlit("require");
        reveal_strlit("research");
        reveal_strlit("resource");
        reveal_strlit("respond");
        reveal_strlit("response");
        reveal_strlit("responsibility");
        reveal_strlit("rest");
        reveal_strlit("result");
        reveal_strlit("return");
        reveal_strlit("reveal");
        reveal_strlit("rich");
        reveal_strlit("right");
        reveal_strlit("rise");
        reveal_strlit("risk");
        reveal_strlit("road");
        reveal_strlit("rock");
        reveal_strlit("role");
        reveal_strlit("room");
        reveal_strlit("rule");
        reveal_strlit("run");
        reveal_strlit("safe");
        reveal_strlit("same");
        reveal_strlit("save");
        reveal_strlit("say");
        reveal_strlit("scene");
        reveal_strlit("school");
        reveal_strlit("science");
        reveal_strlit("scientist");
        reveal_strlit("score");
        reveal_strlit("sea");
        reveal_strlit("season");
        reveal_strlit("seat");
        reveal_strlit("second");
        reveal_strlit("section");
        reveal_strlit("security");
        reveal_strlit("see");
        reveal_strlit("seek");
        reveal_strlit("seem");
        reveal_strlit("sell");
        reveal_strlit("send");
        reveal_strlit("senior");
        reveal_strlit("sense");
        reveal_strlit("series");
        reveal_strlit("serious");
        reveal_strlit("serve");
        reveal_strlit("service");
        reveal_strlit("set");
        reveal_strlit("seven");
        reveal_strlit("several");
        reveal_strlit("shake");
        reveal_strlit("share");
        reveal_strlit("she");
        reveal_strlit("shoot");
        reveal_strlit("short");
        reveal_strlit("shot");
        reveal_strlit("should");
        reveal_strlit("shoulder");
        reveal_strlit("show");
        reveal_strlit("side");
        reveal_strlit("sign");
        reveal_strlit("significant");
        reveal_strlit("similar");
        reveal_strlit("simple");
        reveal_strlit("simply");
        reveal_strlit("since");
        reveal_strlit("sing");
        reveal_strlit("single");
        reveal_strlit("sister");
        reveal_strlit("sit");
        reveal_strlit("site");
        reveal_strlit("situation");
        reveal_strlit("six");
        reveal_strlit("size");
        reveal_strlit("skill");
        reveal_strlit("skin");
        reveal_strlit("small");
        reveal_strlit("smile");
        reveal_strlit("so");
        reveal_strlit("social");
        reveal_strlit("society");
        reveal_strlit("soldier");
        reveal_strlit("some");
        reveal_strlit("somebody");
        reveal_strlit("someone");
        reveal_strlit("something");
        reveal_strlit("sometimes");
        reveal_strlit("son");
        reveal_strlit("song");
        reveal_strlit("soon");
        reveal_strlit("sort");
        reveal_strlit("sound");
        reveal_strlit("source");
        reveal_strlit("south");
        reveal_strlit("southern");
        reveal_strlit("space");
        reveal_strlit("speak");
        reveal_strlit("special");
        reveal_strlit("specific");
        reveal_strlit("speech");
        reveal_strlit("spend");
        reveal_strlit("sport");
        reveal_strlit("spring");
        reveal_strlit("staff");
        reveal_strlit("stage");
        reveal_strlit("stand");
        reveal_strlit("standard");
        reveal_strlit("star");
        reveal_strlit("start");
        reveal_strlit("state");
        reveal_strlit("statement");
        reveal_strlit("station");
        reveal_strlit("stay");
        reveal_strlit("step");
        reveal_strlit("still");
        reveal_strlit("stock");
        reveal_strlit("stop");
        reveal_strlit("store");
        reveal_strlit("story");
        reveal_strlit("strategy");
        reveal_strlit("street");
        reveal_strlit("strong");
        reveal_strlit("structure");
        reveal_strlit("student");
        reveal_strlit("study");
        reveal_strlit("stuff");
        reveal_strlit("style");
        reveal_strlit("subject");
        reveal_strlit("success");
        reveal_strlit("successful");
        reveal_strlit("such");
        reveal_strlit("suddenly");
        reveal_strlit("suffer");
        reveal_strlit("suggest");
        reveal_strlit("summer");
        reveal_strlit("support");
        reveal_strlit("sure");
        reveal_strlit("surface");
        reveal_strlit("system");
        reveal_strlit("table");
        reveal_strlit("take");
        reveal_strlit("talk");
        reveal_strlit("task");
        reveal_strlit("tax");
        reveal_strlit("teach");
        reveal_strlit("teacher");
        reveal_strlit("team");
        reveal_strlit("technology");
        reveal_strlit("television");
        reveal_strlit("tell");
        reveal_strlit("ten");
        reveal_strlit("tend");
        reveal_strlit("term");
        reveal_strlit("test");
        reveal_strlit("than");
        reveal_strlit("thank");
        reveal_strlit("that");
        reveal_strlit("the");
        reveal_strlit("their");
        reveal_strlit("them");
        reveal_strlit("themselves");
        reveal_strlit("then");
        reveal_strlit("theory");
        reveal_strlit("there");
        reveal_strlit("these");
        reveal_strlit("they");
        reveal_strlit("thing");
        reveal_strlit("think");
        reveal_strlit("third");
        reveal_strlit("this");
        reveal_strlit("those");
        reveal_strlit("though");
        reveal_strlit("thought");
        reveal_strlit("thousand");
        reveal_strlit("threat");
        reveal_strlit("three");
        reveal_strlit("through");
        reveal_strlit("throughout");
        reveal_strlit("throw");
        reveal_strlit("thus");
        reveal_strlit("time");
        reveal_strlit("to");
        reveal_strlit("today");
        reveal_strlit("together");
        reveal_strlit("tonight");
        reveal_strlit("too");
        reveal_strlit("top");
        reveal_strlit("total");
        reveal_strlit("tough");
        reveal_strlit("toward");
        reveal_strlit("town");
        reveal_strlit("trade");
        reveal_strlit("traditional");
        reveal_strlit("training");
        reveal_strlit("travel");
        reveal_strlit("treat");
        reveal_strlit("treatment");
        reveal_strlit("tree");
        reveal_strlit("trial");
        reveal_strlit("trip");
        reveal_strlit("trouble");
        reveal_strlit("true");
        reveal_strlit("truth");
        reveal_strlit("try");
        reveal_strlit("turn");
        reveal_strlit("TV");
        reveal_strlit("two");
        reveal_strlit("type");
        reveal_strlit("under");
        reveal_strlit("understand");
        reveal_strlit("unit");
        reveal_strlit("until");
        reveal_strlit("up");
        reveal_strlit("upon");
        reveal_strlit("us");
        reveal_strlit("use");
        reveal_strlit("usually");
        reveal_strlit("value");
        reveal_strlit("various");
        reveal_strlit("very");
        reveal_strlit("victim");
        reveal_strlit("view");
        reveal_strlit("violence");
        reveal_strlit("visit");
        reveal_strlit("voice");
        reveal_strlit("vote");
        reveal_strlit("wait");
        reveal_strlit("walk");
        reveal_strlit("wall");
        reveal_strlit("want");
        reveal_strlit("war");
        reveal_strlit("watch");
        reveal_strlit("water");
        reveal_strlit("way");
        reveal_strlit("we");
        reveal_strlit("weapon");
        reveal_strlit("wear");
        reveal_strlit("week");
        reveal_strlit("weight");
        reveal_strlit("well");
        reveal_strlit("west");
        reveal_strlit("western");
        reveal_strlit("what");
        reveal_strlit("whatever");
        reveal_strlit("when");
        reveal_strlit("where");
        reveal_strlit("whether");
        reveal_strlit("which");
        reveal_strlit("while");
        reveal_strlit("white");
        reveal_strlit("who");
        reveal_strlit("whole");
        reveal_strlit("whom");
        reveal_strlit("whose");
        reveal_strlit("why");
        reveal_strlit("wide");
        reveal_strlit("wife");
        reveal_strlit("will");
        reveal_strlit("win");
        reveal_strlit("wind");
        reveal_strlit("window");
        reveal_strlit("wish");
        reveal_strlit("with");
        reveal_strlit("within");
        reveal_strlit("without");
        reveal_strlit("woman");
        reveal_strlit("wonder");
        reveal_strlit("word");
        reveal_strlit("work");
        reveal_strlit("worker");
        reveal_strlit("world");
        reveal_strlit("worry");
        reveal_strlit("would");
        reveal_strlit("write");
        reveal_strlit("writer");
        reveal_strlit("wrong");
        reveal_strlit("yard");
        reveal_strlit("yeah");
        reveal_strlit("year");
        reveal_strlit("yes");
        reveal_strlit("yet");
        reveal_strlit("you");
        reveal_strlit("young");
        reveal_strlit("your");
        reveal_strlit("yourself");
    }
    t
}

/// A country record.
pub fn country(
    name: &str,
    alpha_2_code: &str,
    alpha_3_code: &str,
    continent: &str,
    capital: &str,
    timezones: &[&str],
) -> (c: Country)
    ensures
        c.name@ == name@,
        c.alpha_2_code@ == alpha_2_code@,
        c.alpha_3_code@ == alpha_3_code@,
{
    Country {
        name: name.to_owned(),
        alpha_2_code: alpha_2_code.to_owned(),
        alpha_3_code: alpha_3_code.to_owned(),
        continent: continent.to_owned(),
        capital: capital.to_owned(),
        timezones: strings(timezones),
    }
}


#[verifier::rlimit(50)]
#[verifier::spinoff_prover]
proof fn lemma_template_0()
    ensures
        names_known("{{first_name_female}} {{last_name}}"@),
        names_below("{{first_name_female}} {{last_name}}"@, 1),
        forall|d: nat| d >= 1 ==> #[trigger] names_below("{{first_name_female}} {{last_name}}"@, d),
{
    reveal(names_known);
    reveal_strlit("{{first_name_female}} {{last_name}}");
    reveal_strlit("first_name_female");
    lemma_names_plain(Formatter::FirstNameFemale);
    reveal_strlit("last_name");
    lemma_names_plain(Formatter::LastName);
    let ps = seq![Piece::Name(Formatter::FirstNameFemale.name_spec()), Piece::Text(' '), Piece::Name(Formatter::LastName.name_spec())];
    reveal_with_fuel(text_of, 4);
    lemma_pieces_of_text(Seq::empty(), ps);
    assert(Seq::<char>::empty() + text_of(ps) =~= text_of(ps));
    assert("{{first_name_female}} {{last_name}}"@ =~= text_of(ps));
    assert(all_known(ps));
    assert(names_below("{{first_name_female}} {{last_name}}"@, 1));
    assert forall|d: nat| d >= 1 implies #[trigger] names_below("{{first_name_female}} {{last_name}}"@, d) by {
        lemma_names_below_mono("{{first_name_female}} {{last_name}}"@, 1, d);
    }
}

#[verifier::rlimit(50)]
#[verifier::spinoff_prover]
proof fn lemma_template_1()
    ensures
        names_known("{{prefix_female}} {{first_name_female}} {{last_name}}"@),
        names_below("{{prefix_female}} {{first_name_female}} {{last_name}}"@, 1),
        forall|d: nat| d >= 1 ==> #[trigger] names_below("{{prefix_female}} {{first_name_female}} {{last_name}}"@, d),
{
    reveal(names_known);
    reveal_strlit("{{prefix_female}} {{first_name_female}} {{last_name}}");
    reveal_strlit("prefix_female");
    lemma_names_plain(Formatter::PrefixFemale);
    reveal_strlit("first_name_female");
    lemma_names_plain(Formatter::FirstNameFemale);
    reveal_strlit("last_name");
    lemma_names_plain(Formatter::LastName);
    let ps = seq![Piece::Name(Formatter::PrefixFemale.name_spec()), Piece::Text(' '), Piece::Name(Formatter::FirstNameFemale.name_spec()), Piece::Text(' '), Piece::Name(Formatter::LastName.name_spec())];
    reveal_with_fuel(text_of, 6);
    lemma_pieces_of_text(Seq::empty(), ps);
    assert(Seq::<char>::empty() + text_of(ps) =~= text_of(ps));
    assert("{{prefix_female}} {{first_name_female}} {{last_name}}"@ =~= text_of(ps));
    assert(all_known(ps));
    assert(names_below("{{prefix_female}} {{first_name_female}} {{last_name}}"@, 1));
    assert forall|d: nat| d >= 1 implies #[trigger] names_below("{{prefix_female}} {{first_name_female}} {{last_name}}"@, d) by {
        lemma_names_below_mono("{{prefix_female}} {{first_name_female}} {{last_name}}"@, 1, d);
    }
}

#[verifier::rlimit(50)]
#[verifier::spinoff_prover]
proof fn lemma_template_2()
    ensures
        names_known("{{first_name_female}} {{last_name}} {{suffix_female}}"@),
        names_below("{{first_name_female}} {{last_name}} {{suffix_female}}"@, 1),
        forall|d: nat| d >= 1 ==> #[trigger] names_below("{{first_name_female}} {{last_name}} {{suffix_female}}"@, d),
{
    reveal(names_known);
    reveal_strlit("{{first_name_female}} {{last_name}} {{suffix_female}}");
    reveal_strlit("first_name_female");
    lemma_names_plain(Formatter::FirstNameFemale);
    reveal_strlit("last_name");
    lemma_names_plain(Formatter::LastName);
    reveal_strlit("suffix_female");
    lemma_names_plain(Formatter::SuffixFemale);
    let ps = seq![Piece::Name(Formatter::FirstNameFemale.name_spec()), Piece::Text(' '), Piece::Name(Formatter::LastName.name_spec()), Piece::Text(' '), Piece::Name(Formatter::SuffixFemale.name_spec())];
    reveal_with_fuel(text_of, 6);
    lemma_pieces_of_text(Seq::empty(), ps);
    assert(Seq::<char>::empty() + text_of(ps) =~= text_of(ps));
    assert("{{first_name_female}} {{last_name}} {{suffix_female}}"@ =~= text_of(ps));
    assert(all_known(ps));
    assert(names_below("{{first_name_female}} {{last_name}} {{suffix_female}}"@, 1));
    assert forall|d: nat| d >= 1 implies #[trigger] names_below("{{first_name_female}} {{last_name}} {{suffix_female}}"@, d) by {
        lemma_names_below_mono("{{first_name_female}} {{last_name}} {{suffix_female}}"@, 1, d);
    }
}

#[verifier::rlimit(50)]
#[verifier::spinoff_prover]
proof fn lemma_template_3()
    ensures
        names_known("{{prefix_female}} {{first_name_female}} {{last_name}} {{suffix_female}}"@),
        names_below("{{prefix_female}} {{first_name_female}} {{last_name}} {{suffix_female}}"@, 1),
        forall|d: nat| d >= 1 ==> #[trigger] names_below("{{prefix_female}} {{first_name_female}} {{last_name}} {{suffix_female}}"@, d),
{
    reveal(names_known);
    reveal_strlit("{{prefix_female}} {{first_name_female}} {{last_name}} {{suffix_female}}");
    reveal_strlit("prefix_female");
    lemma_names_plain(Formatter::PrefixFemale);
    reveal_strlit("first_name_female");
    lemma_names_plain(Formatter::FirstNameFemale);
    reveal_strlit("last_name");
    lemma_names_plain(Formatter::LastName);
    reveal_strlit("suffix_female");
    lemma_names_plain(Formatter::SuffixFemale);
    let ps = seq![Piece::Name(Formatter::PrefixFemale.name_spec()), Piece::Text(' '), Piece::Name(Formatter::FirstNameFemale.name_spec()), Piece::Text(' '), Piece::Name(Formatter::LastName.name_spec()), Piece::Text(' '), Piece::Name(Formatter::SuffixFemale.name_spec())];
    reveal_with_fuel(text_of, 8);
    lemma_pieces_of_text(Seq::empty(), ps);
    assert(Seq::<char>::empty() + text_of(ps) =~= text_of(ps));
    assert("{{prefix_female}} {{first_name_female}} {{last_name}} {{suffix_female}}"@ =~= text_of(ps));
    assert(all_known(ps));
    assert(names_below("{{prefix_female}} {{first_name_female}} {{last_name}} {{suffix_female}}"@, 1));
    assert forall|d: nat| d >= 1 implies #[trigger] names_below("{{prefix_female}} {{first_name_female}} {{last_name}} {{suffix_female}}"@, d) by {
        lemma_names_below_mono("{{prefix_female}} {{first_name_female}} {{last_name}} {{suffix_female}}"@, 1, d);
    }
}

#[verifier::rlimit(50)]
#[verifier::spinoff_prover]
proof fn lemma_template_4()
    ensures
        names_known("{{first_name_male}} {{last_name}}"@),
        names_below("{{first_name_male}} {{last_name}}"@, 1),
        forall|d: nat| d >= 1 ==> #[trigger] names_below("{{first_name_male}} {{last_name}}"@, d),
{
    reveal(names_known);
    reveal_strlit("{{first_name_male}} {{last_name}}");
    reveal_strlit("first_name_male");
    lemma_names_plain(Formatter::FirstNameMale);
    reveal_strlit("last_name");
    lemma_names_plain(Formatter::LastName);
    let ps = seq![Piece::Name(Formatter::FirstNameMale.name_spec()), Piece::Text(' '), Piece::Name(Formatter::LastName.name_spec())];
    reveal_with_fuel(text_of, 4);
    lemma_pieces_of_text(Seq::empty(), ps);
    assert(Seq::<char>::empty() + text_of(ps) =~= text_of(ps));
    assert("{{first_name_male}} {{last_name}}"@ =~= text_of(ps));
    assert(all_known(ps));
    assert(names_below("{{first_name_male}} {{last_name}}"@, 1));
    assert forall|d: nat| d >= 1 implies #[trigger] names_below("{{first_name_male}} {{last_name}}"@, d) by {
        lemma_names_below_mono("{{first_name_male}} {{last_name}}"@, 1, d);
    }
}

#[verifier::rlimit(50)]
#[verifier::spinoff_prover]
proof fn lemma_template_5()
    ensures
        names_known("{{prefix_male}} {{first_name_male}} {{last_name}}"@),
        names_below("{{prefix_male}} {{first_name_male}} {{last_name}}"@, 1),
        forall|d: nat| d >= 1 ==> #[trigger] names_below("{{prefix_male}} {{first_name_male}} {{last_name}}"@, d),
{
    reveal(names_known);
    reveal_strlit("{{prefix_male}} {{first_name_male}} {{last_name}}");
    reveal_strlit("prefix_male");
    lemma_names_plain(Formatter::PrefixMale);
    reveal_strlit("first_name_male");
    lemma_names_plain(Formatter::FirstNameMale);
    reveal_strlit("last_name");
    lemma_names_plain(Formatter::LastName);
    let ps = seq![Piece::Name(Formatter::PrefixMale.name_spec()), Piece::Text(' '), Piece::Name(Formatter::FirstNameMale.name_spec()), Piece::Text(' '), Piece::Name(Formatter::LastName.name_spec())];
    reveal_with_fuel(text_of, 6);
    lemma_pieces_of_text(Seq::empty(), ps);
    assert(Seq::<char>::empty() + text_of(ps) =~= text_of(ps));
    assert("{{prefix_male}} {{first_name_male}} {{last_name}}"@ =~= text_of(ps));
    assert(all_known(ps));
    assert(names_below("{{prefix_male}} {{first_name_male}} {{last_name}}"@, 1));
    assert forall|d: nat| d >= 1 implies #[trigger] names_below("{{prefix_male}} {{first_name_male}} {{last_name}}"@, d) by {
        lemma_names_below_mono("{{prefix_male}} {{first_name_male}} {{last_name}}"@, 1, d);
    }
}

#[verifier::rlimit(50)]
#[verifier::spinoff_prover]
proof fn lemma_template_6()
    ensures
        names_known("{{first_name_male}} {{last_name}} {{suffix_male}}"@),
        names_below("{{first_name_male}} {{last_name}} {{suffix_male}}"@, 1),
        forall|d: nat| d >= 1 ==> #[trigger] names_below("{{first_name_male}} {{last_name}} {{suffix_male}}"@, d),
{
    reveal(names_known);
    reveal_strlit("{{first_name_male}} {{last_name}} {{suffix_male}}");
    reveal_strlit("first_name_male");
    lemma_names_plain(Formatter::FirstNameMale);
    reveal_strlit("last_name");
    lemma_names_plain(Formatter::LastName);
    reveal_strlit("suffix_male");
    lemma_names_plain(Formatter::SuffixMale);
    let ps = seq![Piece::Name(Formatter::FirstNameMale.name_spec()), Piece::Text(' '), Piece::Name(Formatter::LastName.name_spec()), Piece::Text(' '), Piece::Name(Formatter::SuffixMale.name_spec())];
    reveal_with_fuel(text_of, 6);
    lemma_pieces_of_text(Seq::empty(), ps);
    assert(Seq::<char>::empty() + text_of(ps) =~= text_of(ps));
    assert("{{first_name_male}} {{last_name}} {{suffix_male}}"@ =~= text_of(ps));
    assert(all_known(ps));
    assert(names_below("{{first_name_male}} {{last_name}} {{suffix_male}}"@, 1));
    assert forall|d: nat| d >= 1 implies #[trigger] names_below("{{first_name_male}} {{last_name}} {{suffix_male}}"@, d) by {
        lemma_names_below_mono("{{first_name_male}} {{last_name}} {{suffix_male}}"@, 1, d);
    }
}

#[verifier::rlimit(50)]
#[verifier::spinoff_prover]
proof fn lemma_template_7()
    ensures
        names_known("{{prefix_male}} {{first_name_male}} {{last_name}} {{suffix_male}}"@),
        names_below("{{prefix_male}} {{first_name_male}} {{last_name}} {{suffix_male}}"@, 1),
        forall|d: nat| d >= 1 ==> #[trigger] names_below("{{prefix_male}} {{first_name_male}} {{last_name}} {{suffix_male}}"@, d),
{
    reveal(names_known);
    reveal_strlit("{{prefix_male}} {{first_name_male}} {{last_name}} {{suffix_male}}");
    reveal_strlit("prefix_male");
    lemma_names_plain(Formatter::PrefixMale);
    reveal_strlit("first_name_male");
    lemma_names_plain(Formatter::FirstNameMale);
    reveal_strlit("last_name");
    lemma_names_plain(Formatter::LastName);
    reveal_strlit("suffix_male");
    lemma_names_plain(Formatter::SuffixMale);
    let ps = seq![Piece::Name(Formatter::PrefixMale.name_spec()), Piece::Text(' '), Piece::Name(Formatter::FirstNameMale.name_spec()), Piece::Text(' '), Piece::Name(Formatter::LastName.name_spec()), Piece::Text(' '), Piece::Name(Formatter::SuffixMale.name_spec())];
    reveal_with_fuel(text_of, 8);
    lemma_pieces_of_text(Seq::empty(), ps);
    assert(Seq::<char>::empty() + text_of(ps) =~= text_of(ps));
    assert("{{prefix_male}} {{first_name_male}} {{last_name}} {{suffix_male}}"@ =~= text_of(ps));
    assert(all_known(ps));
    assert(names_below("{{prefix_male}} {{first_name_male}} {{last_name}} {{suffix_male}}"@, 1));
    assert forall|d: nat| d >= 1 implies #[trigger] names_below("{{prefix_male}} {{first_name_male}} {{last_name}} {{suffix_male}}"@, d) by {
        lemma_names_below_mono("{{prefix_male}} {{first_name_male}} {{last_name}} {{suffix_male}}"@, 1, d);
    }
}

#[verifier::rlimit(50)]
#[verifier::spinoff_prover]
proof fn lemma_template_8()
    ensures
        names_known("{{first_name_nonbinary}} {{last_name}}"@),
        names_below("{{first_name_nonbinary}} {{last_name}}"@, 1),
        forall|d: nat| d >= 1 ==> #[trigger] names_below("{{first_name_nonbinary}} {{last_name}}"@, d),
{
    reveal(names_known);
    reveal_strlit("{{first_name_nonbinary}} {{last_name}}");
    reveal_strlit("first_name_nonbinary");
    lemma_names_plain(Formatter::FirstNameNonbinary);
    reveal_strlit("last_name");
    lemma_names_plain(Formatter::LastName);
    let ps = seq![Piece::Name(Formatter::FirstNameNonbinary.name_spec()), Piece::Text(' '), Piece::Name(Formatter::LastName.name_spec())];
    reveal_with_fuel(text_of, 4);
    lemma_pieces_of_text(Seq::empty(), ps);
    assert(Seq::<char>::empty() + text_of(ps) =~= text_of(ps));
    assert("{{first_name_nonbinary}} {{last_name}}"@ =~= text_of(ps));
    assert(all_known(ps));
    assert(names_below("{{first_name_nonbinary}} {{last_name}}"@, 1));
    assert forall|d: nat| d >= 1 implies #[trigger] names_below("{{first_name_nonbinary}} {{last_name}}"@, d) by {
        lemma_names_below_mono("{{first_name_nonbinary}} {{last_name}}"@, 1, d);
    }
}

#[verifier::rlimit(50)]
#[verifier::spinoff_prover]
proof fn lemma_template_9()
    ensures
        names_known("{{prefix_nonbinary}} {{first_name_nonbinary}} {{last_name}}"@),
        names_below("{{prefix_nonbinary}} {{first_name_nonbinary}} {{last_name}}"@, 1),
        forall|d: nat| d >= 1 ==> #[trigger] names_below("{{prefix_nonbinary}} {{first_name_nonbinary}} {{last_name}}"@, d),
{
    reveal(names_known);
    reveal_strlit("{{prefix_nonbinary}} {{first_name_nonbinary}} {{last_name}}");
    reveal_strlit("prefix_nonbinary");
    lemma_names_plain(Formatter::PrefixNonbinary);
    reveal_strlit("first_name_nonbinary");
    lemma_names_plain(Formatter::FirstNameNonbinary);
    reveal_strlit("last_name");
    lemma_names_plain(Formatter::LastName);
    let ps = seq![Piece::Name(Formatter::PrefixNonbinary.name_spec()), Piece::Text(' '), Piece::Name(Formatter::FirstNameNonbinary.name_spec()), Piece::Text(' '), Piece::Name(Formatter::LastName.name_spec())];
    reveal_with_fuel(text_of, 6);
    lemma_pieces_of_text(Seq::empty(), ps);
    assert(Seq::<char>::empty() + text_of(ps) =~= text_of(ps));
    assert("{{prefix_nonbinary}} {{first_name_nonbinary}} {{last_name}}"@ =~= text_of(ps));
    assert(all_known(ps));
    assert(names_below("{{prefix_nonbinary}} {{first_name_nonbinary}} {{last_name}}"@, 1));
    assert forall|d: nat| d >= 1 implies #[trigger] names_below("{{prefix_nonbinary}} {{first_name_nonbinary}} {{last_name}}"@, d) by {
        lemma_names_below_mono("{{prefix_nonbinary}} {{first_name_nonbinary}} {{last_name}}"@, 1, d);
    }
}

#[verifier::rlimit(50)]
#[verifier::spinoff_prover]
proof fn lemma_template_10()
    ensures
        names_known("{{first_name_nonbinary}} {{last_name}} {{suffix_nonbinary}}"@),
        names_below("{{first_name_nonbinary}} {{last_name}} {{suffix_nonbinary}}"@, 1),
        forall|d: nat| d >= 1 ==> #[trigger] names_below("{{first_name_nonbinary}} {{last_name}} {{suffix_nonbinary}}"@, d),
{
    reveal(names_known);
    reveal_strlit("{{first_name_nonbinary}} {{last_name}} {{suffix_nonbinary}}");
    reveal_strlit("first_name_nonbinary");
    lemma_names_plain(Formatter::FirstNameNonbinary);
    reveal_strlit("last_name");
    lemma_names_plain(Formatter::LastName);
    reveal_strlit("suffix_nonbinary");
    lemma_names_plain(Formatter::SuffixNonbinary);
    let ps = seq![Piece::Name(Formatter::FirstNameNonbinary.name_spec()), Piece::Text(' '), Piece::Name(Formatter::LastName.name_spec()), Piece::Text(' '), Piece::Name(Formatter::SuffixNonbinary.name_spec())];
    reveal_with_fuel(text_of, 6);
    lemma_pieces_of_text(Seq::empty(), ps);
    assert(Seq::<char>::empty() + text_of(ps) =~= text_of(ps));
    assert("{{first_name_nonbinary}} {{last_name}} {{suffix_nonbinary}}"@ =~= text_of(ps));
    assert(all_known(ps));
    assert(names_below("{{first_name_nonbinary}} {{last_name}} {{suffix_nonbinary}}"@, 1));
    assert forall|d: nat| d >= 1 implies #[trigger] names_below("{{first_name_nonbinary}} {{last_name}} {{suffix_nonbinary}}"@, d) by {
        lemma_names_below_mono("{{first_name_nonbinary}} {{last_name}} {{suffix_nonbinary}}"@, 1, d);
    }
}

#[verifier::rlimit(50)]
#[verifier::spinoff_prover]
proof fn lemma_template_11()
    ensures
        names_known("{{prefix_nonbinary}} {{first_name_nonbinary}} {{last_name}} {{suffix_nonbinary}}"@),
        names_below("{{prefix_nonbinary}} {{first_name_nonbinary}} {{last_name}} {{suffix_nonbinary}}"@, 1),
        forall|d: nat| d >= 1 ==> #[trigger] names_below("{{prefix_nonbinary}} {{first_name_nonbinary}} {{last_name}} {{suffix_nonbinary}}"@, d),
{
    reveal(names_known);
    reveal_strlit("{{prefix_nonbinary}} {{first_name_nonbinary}} {{last_name}} {{suffix_nonbinary}}");
    reveal_strlit("prefix_nonbinary");
    lemma_names_plain(Formatter::PrefixNonbinary);
    reveal_strlit("first_name_nonbinary");
    lemma_names_plain(Formatter::FirstNameNonbinary);
    reveal_strlit("last_name");
    lemma_names_plain(Formatter::LastName);
    reveal_strlit("suffix_nonbinary");
    lemma_names_plain(Formatter::SuffixNonbinary);
    let ps = seq![Piece::Name(Formatter::PrefixNonbinary.name_spec()), Piece::Text(' '), Piece::Name(Formatter::FirstNameNonbinary.name_spec()), Piece::Text(' '), Piece::Name(Formatter::LastName.name_spec()), Piece::Text(' '), Piece::Name(Formatter::SuffixNonbinary.name_spec())];
    reveal_with_fuel(text_of, 8);
    lemma_pieces_of_text(Seq::empty(), ps);
    assert(Seq::<char>::empty() + text_of(ps) =~= text_of(ps));
    assert("{{prefix_nonbinary}} {{first_name_nonbinary}} {{last_name}} {{suffix_nonbinary}}"@ =~= text_of(ps));
    assert(all_known(ps));
    assert(names_below("{{prefix_nonbinary}} {{first_name_nonbinary}} {{last_name}} {{suffix_nonbinary}}"@, 1));
    assert forall|d: nat| d >= 1 implies #[trigger] names_below("{{prefix_nonbinary}} {{first_name_nonbinary}} {{last_name}} {{suffix_nonbinary}}"@, d) by {
        lemma_names_below_mono("{{prefix_nonbinary}} {{first_name_nonbinary}} {{last_name}} {{suffix_nonbinary}}"@, 1, d);
    }
}

#[verifier::rlimit(50)]
#[verifier::spinoff_prover]
proof fn lemma_template_12()
    ensures
        names_known("{{street_address}}\n{{city}}, {{state_abbr}} {{postcode}}"@),
        names_below("{{street_address}}\n{{city}}, {{state_abbr}} {{postcode}}"@, 3),
        forall|d: nat| d >= 3 ==> #[trigger] names_below("{{street_address}}\n{{city}}, {{state_abbr}} {{postcode}}"@, d),
{
    reveal(names_known);
    reveal_strlit("{{street_address}}\n{{city}}, {{state_abbr}} {{postcode}}");
    reveal_strlit("street_address");
    lemma_names_plain(Formatter::StreetAddress);
    reveal_strlit("city");
    lemma_names_plain(Formatter::City);
    reveal_strlit("state_abbr");
    lemma_names_plain(Formatter::StateAbbr);
    reveal_strlit("postcode");
    lemma_names_plain(Formatter::Postcode);
    let ps = seq![Piece::Name(Formatter::StreetAddress.name_spec()), Piece::Text('\n'), Piece::Name(Formatter::City.name_spec()), Piece::Text(','), Piece::Text(' '), Piece::Name(Formatter::StateAbbr.name_spec()), Piece::Text(' '), Piece::Name(Formatter::Postcode.name_spec())];
    reveal_with_fuel(text_of, 9);
    lemma_pieces_of_text(Seq::empty(), ps);
    assert(Seq::<char>::empty() + text_of(ps) =~= text_of(ps));
    assert("{{street_address}}\n{{city}}, {{state_abbr}} {{postcode}}"@ =~= text_of(ps));
    assert(all_known(ps));
    assert(names_below("{{street_address}}\n{{city}}, {{state_abbr}} {{postcode}}"@, 3));
    assert forall|d: nat| d >= 3 implies #[trigger] names_below("{{street_address}}\n{{city}}, {{state_abbr}} {{postcode}}"@, d) by {
        lemma_names_below_mono("{{street_address}}\n{{city}}, {{state_abbr}} {{postcode}}"@, 3, d);
    }
}

#[verifier::rlimit(50)]
#[verifier::spinoff_prover]
proof fn lemma_template_13()
    ensures
        names_known("{{military_apo}}\nAPO {{military_state}} {{postcode}}"@),
        names_below("{{military_apo}}\nAPO {{military_state}} {{postcode}}"@, 1),
        forall|d: nat| d >= 1 ==> #[trigger] names_below("{{military_apo}}\nAPO {{military_state}} {{postcode}}"@, d),
{
    reveal(names_known);
    reveal_strlit("{{military_apo}}\nAPO {{military_state}} {{postcode}}");
    reveal_strlit("military_apo");
    lemma_names_plain(Formatter::MilitaryApo);
    reveal_strlit("military_state");
    lemma_names_plain(Formatter::MilitaryState);
    reveal_strlit("postcode");
    lemma_names_plain(Formatter::Postcode);
    let ps = seq![Piece::Name(Formatter::MilitaryApo.name_spec()), Piece::Text('\n'), Piece::Text('A'), Piece::Text('P'), Piece::Text('O'), Piece::Text(' '), Piece::Name(Formatter::MilitaryState.name_spec()), Piece::Text(' '), Piece::Name(Formatter::Postcode.name_spec())];
    reveal_with_fuel(text_of, 10);
    lemma_pieces_of_text(Seq::empty(), ps);
    assert(Seq::<char>::empty() + text_of(ps) =~= text_of(ps));
    assert("{{military_apo}}\nAPO {{military_state}} {{postcode}}"@ =~= text_of(ps));
    assert(all_known(ps));
    assert(names_below("{{military_apo}}\nAPO {{military_state}} {{postcode}}"@, 1));
    assert forall|d: nat| d >= 1 implies #[trigger] names_below("{{military_apo}}\nAPO {{military_state}} {{postcode}}"@, d) by {
        lemma_names_below_mono("{{military_apo}}\nAPO {{military_state}} {{postcode}}"@, 1, d);
    }
}

#[verifier::rlimit(50)]
#[verifier::spinoff_prover]
proof fn lemma_template_14()
    ensures
        names_known("{{military_ship}} {{last_name}}\nFPO {{military_state}} {{postcode}}"@),
        names_below("{{military_ship}} {{last_name}}\nFPO {{military_state}} {{postcode}}"@, 1),
        forall|d: nat| d >= 1 ==> #[trigger] names_below("{{military_ship}} {{last_name}}\nFPO {{military_state}} {{postcode}}"@, d),
{
    reveal(names_known);
    reveal_strlit("{{military_ship}} {{last_name}}\nFPO {{military_state}} {{postcode}}");
    reveal_strlit("military_ship");
    lemma_names_plain(Formatter::MilitaryShip);
    reveal_strlit("last_name");
    lemma_names_plain(Formatter::LastName);
    reveal_strlit("military_state");
    lemma_names_plain(Formatter::MilitaryState);
    reveal_strlit("postcode");
    lemma_names_plain(Formatter::Postcode);
    let ps = seq![Piece::Name(Formatter::MilitaryShip.name_spec()), Piece::Text(' '), Piece::Name(Formatter::LastName.name_spec()), Piece::Text('\n'), Piece::Text('F'), Piece::Text('P'), Piece::Text('O'), Piece::Text(' '), Piece::Name(Formatter::MilitaryState.name_spec()), Piece::Text(' '), Piece::Name(Formatter::Postcode.name_spec())];
    reveal_with_fuel(text_of, 12);
    lemma_pieces_of_text(Seq::empty(), ps);
    assert(Seq::<char>::empty() + text_of(ps) =~= text_of(ps));
    assert("{{military_ship}} {{last_name}}\nFPO {{military_state}} {{postcode}}"@ =~= text_of(ps));
    assert(all_known(ps));
    assert(names_below("{{military_ship}} {{last_name}}\nFPO {{military_state}} {{postcode}}"@, 1));
    assert forall|d: nat| d >= 1 implies #[trigger] names_below("{{military_ship}} {{last_name}}\nFPO {{military_state}} {{postcode}}"@, d) by {
        lemma_names_below_mono("{{military_ship}} {{last_name}}\nFPO {{military_state}} {{postcode}}"@, 1, d);
    }
}

#[verifier::rlimit(50)]
#[verifier::spinoff_prover]
proof fn lemma_template_15()
    ensures
        names_known("{{military_dpo}}\nDPO {{military_state}} {{postcode}}"@),
        names_below("{{military_dpo}}\nDPO {{military_state}} {{postcode}}"@, 1),
        forall|d: nat| d >= 1 ==> #[trigger] names_below("{{military_dpo}}\nDPO {{military_state}} {{postcode}}"@, d),
{
    reveal(names_known);
    reveal_strlit("{{military_dpo}}\nDPO {{military_state}} {{postcode}}");
    reveal_strlit("military_dpo");
    lemma_names_plain(Formatter::MilitaryDpo);
    reveal_strlit("military_state");
    lemma_names_plain(Formatter::MilitaryState);
    reveal_strlit("postcode");
    lemma_names_plain(Formatter::Postcode);
    let ps = seq![Piece::Name(Formatter::MilitaryDpo.name_spec()), Piece::Text('\n'), Piece::Text('D'), Piece::Text('P'), Piece::Text('O'), Piece::Text(' '), Piece::Name(Formatter::MilitaryState.name_spec()), Piece::Text(' '), Piece::Name(Formatter::Postcode.name_spec())];
    reveal_with_fuel(text_of, 10);
    lemma_pieces_of_text(Seq::empty(), ps);
    assert(Seq::<char>::empty() + text_of(ps) =~= text_of(ps));
    assert("{{military_dpo}}\nDPO {{military_state}} {{postcode}}"@ =~= text_of(ps));
    assert(all_known(ps));
    assert(names_below("{{military_dpo}}\nDPO {{military_state}} {{postcode}}"@, 1));
    assert forall|d: nat| d >= 1 implies #[trigger] names_below("{{military_dpo}}\nDPO {{military_state}} {{postcode}}"@, d) by {
        lemma_names_below_mono("{{military_dpo}}\nDPO {{military_state}} {{postcode}}"@, 1, d);
    }
}

#[verifier::rlimit(50)]
#[verifier::spinoff_prover]
proof fn lemma_template_16()
    ensures
        names_known("{{city_prefix}} {{first_name}}{{city_suffix}}"@),
        names_below("{{city_prefix}} {{first_name}}{{city_suffix}}"@, 1),
        forall|d: nat| d >= 1 ==> #[trigger] names_below("{{city_prefix}} {{first_name}}{{city_suffix}}"@, d),
{
    reveal(names_known);
    reveal_strlit("{{city_prefix}} {{first_name}}{{city_suffix}}");
    reveal_strlit("city_prefix");
    lemma_names_plain(Formatter::CityPrefix);
    reveal_strlit("first_name");
    lemma_names_plain(Formatter::FirstName);
    reveal_strlit("city_suffix");
    lemma_names_plain(Formatter::CitySuffix);
    let ps = seq![Piece::Name(Formatter::CityPrefix.name_spec()), Piece::Text(' '), Piece::Name(Formatter::FirstName.name_spec()), Piece::Name(Formatter::CitySuffix.name_spec())];
    reveal_with_fuel(text_of, 5);
    lemma_pieces_of_text(Seq::empty(), ps);
    assert(Seq::<char>::empty() + text_of(ps) =~= text_of(ps));
    assert("{{city_prefix}} {{first_name}}{{city_suffix}}"@ =~= text_of(ps));
    assert(all_known(ps));
    assert(names_below("{{city_prefix}} {{first_name}}{{city_suffix}}"@, 1));
    assert forall|d: nat| d >= 1 implies #[trigger] names_below("{{city_prefix}} {{first_name}}{{city_suffix}}"@, d) by {
        lemma_names_below_mono("{{city_prefix}} {{first_name}}{{city_suffix}}"@, 1, d);
    }
}

#[verifier::rlimit(50)]
#[verifier::spinoff_prover]
proof fn lemma_template_17()
    ensures
        names_known("{{city_prefix}} {{first_name}}"@),
        names_below("{{city_prefix}} {{first_name}}"@, 1),
        forall|d: nat| d >= 1 ==> #[trigger] names_below("{{city_prefix}} {{first_name}}"@, d),
{
    reveal(names_known);
    reveal_strlit("{{city_prefix}} {{first_name}}");
    reveal_strlit("city_prefix");
    lemma_names_plain(Formatter::CityPrefix);
    reveal_strlit("first_name");
    lemma_names_plain(Formatter::FirstName);
    let ps = seq![Piece::Name(Formatter::CityPrefix.name_spec()), Piece::Text(' '), Piece::Name(Formatter::FirstName.name_spec())];
    reveal_with_fuel(text_of, 4);
    lemma_pieces_of_text(Seq::empty(), ps);
    assert(Seq::<char>::empty() + text_of(ps) =~= text_of(ps));
    assert("{{city_prefix}} {{first_name}}"@ =~= text_of(ps));
    assert(all_known(ps));
    assert(names_below("{{city_prefix}} {{first_name}}"@, 1));
    assert forall|d: nat| d >= 1 implies #[trigger] names_below("{{city_prefix}} {{first_name}}"@, d) by {
        lemma_names_below_mono("{{city_prefix}} {{first_name}}"@, 1, d);
    }
}

#[verifier::rlimit(50)]
#[verifier::spinoff_prover]
proof fn lemma_template_18()
    ensures
        names_known("{{first_name}}{{city_suffix}}"@),
        names_below("{{first_name}}{{city_suffix}}"@, 1),
        forall|d: nat| d >= 1 ==> #[trigger] names_below("{{first_name}}{{city_suffix}}"@, d),
{
    reveal(names_known);
    reveal_strlit("{{first_name}}{{city_suffix}}");
    reveal_strlit("first_name");
    lemma_names_plain(Formatter::FirstName);
    reveal_strlit("city_suffix");
    lemma_names_plain(Formatter::CitySuffix);
    let ps = seq![Piece::Name(Formatter::FirstName.name_spec()), Piece::Name(Formatter::CitySuffix.name_spec())];
    reveal_with_fuel(text_of, 3);
    lemma_pieces_of_text(Seq::empty(), ps);
    assert(Seq::<char>::empty() + text_of(ps) =~= text_of(ps));
    assert("{{first_name}}{{city_suffix}}"@ =~= text_of(ps));
    assert(all_known(ps));
    assert(names_below("{{first_name}}{{city_suffix}}"@, 1));
    assert forall|d: nat| d >= 1 implies #[trigger] names_below("{{first_name}}{{city_suffix}}"@, d) by {
        lemma_names_below_mono("{{first_name}}{{city_suffix}}"@, 1, d);
    }
}

#[verifier::rlimit(50)]
#[verifier::spinoff_prover]
proof fn lemma_template_19()
    ensures
        names_known("{{last_name}}{{city_suffix}}"@),
        names_below("{{last_name}}{{city_suffix}}"@, 1),
        forall|d: nat| d >= 1 ==> #[trigger] names_below("{{last_name}}{{city_suffix}}"@, d),
{
    reveal(names_known);
    reveal_strlit("{{last_name}}{{city_suffix}}");
    reveal_strlit("last_name");
    lemma_names_plain(Formatter::LastName);
    reveal_strlit("city_suffix");
    lemma_names_plain(Formatter::CitySuffix);
    let ps = seq![Piece::Name(Formatter::LastName.name_spec()), Piece::Name(Formatter::CitySuffix.name_spec())];
    reveal_with_fuel(text_of, 3);
    lemma_pieces_of_text(Seq::empty(), ps);
    assert(Seq::<char>::empty() + text_of(ps) =~= text_of(ps));
    assert("{{last_name}}{{city_suffix}}"@ =~= text_of(ps));
    assert(all_known(ps));
    assert(names_below("{{last_name}}{{city_suffix}}"@, 1));
    assert forall|d: nat| d >= 1 implies #[trigger] names_below("{{last_name}}{{city_suffix}}"@, d) by {
        lemma_names_below_mono("{{last_name}}{{city_suffix}}"@, 1, d);
    }
}

#[verifier::rlimit(50)]
#[verifier::spinoff_prover]
proof fn lemma_template_20()
    ensures
        names_known("{{building_number}} {{street_name}}"@),
        names_below("{{building_number}} {{street_name}}"@, 2),
        forall|d: nat| d >= 2 ==> #[trigger] names_below("{{building_number}} {{street_name}}"@, d),
{
    reveal(names_known);
    reveal_strlit("{{building_number}} {{street_name}}");
    reveal_strlit("building_number");
    lemma_names_plain(Formatter::BuildingNumber);
    reveal_strlit("street_name");
    lemma_names_plain(Formatter::StreetName);
    let ps = seq![Piece::Name(Formatter::BuildingNumber.name_spec()), Piece::Text(' '), Piece::Name(Formatter::StreetName.name_spec())];
    reveal_with_fuel(text_of, 4);
    lemma_pieces_of_text(Seq::empty(), ps);
    assert(Seq::<char>::empty() + text_of(ps) =~= text_of(ps));
    assert("{{building_number}} {{street_name}}"@ =~= text_of(ps));
    assert(all_known(ps));
    assert(names_below("{{building_number}} {{street_name}}"@, 2));
    assert forall|d: nat| d >= 2 implies #[trigger] names_below("{{building_number}} {{street_name}}"@, d) by {
        lemma_names_below_mono("{{building_number}} {{street_name}}"@, 2, d);
    }
}

#[verifier::rlimit(50)]
#[verifier::spinoff_prover]
proof fn lemma_template_21()
    ensures
        names_known("{{building_number}} {{street_name}} {{secondary_address}}"@),
        names_below("{{building_number}} {{street_name}} {{secondary_address}}"@, 2),
        forall|d: nat| d >= 2 ==> #[trigger] names_below("{{building_number}} {{street_name}} {{secondary_address}}"@, d),
{
    reveal(names_known);
    reveal_strlit("{{building_number}} {{street_name}} {{secondary_address}}");
    reveal_strlit("building_number");
    lemma_names_plain(Formatter::BuildingNumber);
    reveal_strlit("street_name");
    lemma_names_plain(Formatter::StreetName);
    reveal_strlit("secondary_address");
    lemma_names_plain(Formatter::SecondaryAddress);
    let ps = seq![Piece::Name(Formatter::BuildingNumber.name_spec()), Piece::Text(' '), Piece::Name(Formatter::StreetName.name_spec()), Piece::Text(' '), Piece::Name(Formatter::SecondaryAddress.name_spec())];
    reveal_with_fuel(text_of, 6);
    lemma_pieces_of_text(Seq::empty(), ps);
    assert(Seq::<char>::empty() + text_of(ps) =~= text_of(ps));
    assert("{{building_number}} {{street_name}} {{secondary_address}}"@ =~= text_of(ps));
    assert(all_known(ps));
    assert(names_below("{{building_number}} {{street_name}} {{secondary_address}}"@, 2));
    assert forall|d: nat| d >= 2 implies #[trigger] names_below("{{building_number}} {{street_name}} {{secondary_address}}"@, d) by {
        lemma_names_below_mono("{{building_number}} {{street_name}} {{secondary_address}}"@, 2, d);
    }
}

#[verifier::rlimit(50)]
#[verifier::spinoff_prover]
proof fn lemma_template_22()
    ensures
        names_known("{{first_name}} {{street_suffix}}"@),
        names_below("{{first_name}} {{street_suffix}}"@, 1),
        forall|d: nat| d >= 1 ==> #[trigger] names_below("{{first_name}} {{street_suffix}}"@, d),
{
    reveal(names_known);
    reveal_strlit("{{first_name}} {{street_suffix}}");
    reveal_strlit("first_name");
    lemma_names_plain(Formatter::FirstName);
    reveal_strlit("street_suffix");
    lemma_names_plain(Formatter::StreetSuffix);
    let ps = seq![Piece::Name(Formatter::FirstName.name_spec()), Piece::Text(' '), Piece::Name(Formatter::StreetSuffix.name_spec())];
    reveal_with_fuel(text_of, 4);
    lemma_pieces_of_text(Seq::empty(), ps);
    assert(Seq::<char>::empty() + text_of(ps) =~= text_of(ps));
    assert("{{first_name}} {{street_suffix}}"@ =~= text_of(ps));
    assert(all_known(ps));
    assert(names_below("{{first_name}} {{street_suffix}}"@, 1));
    assert forall|d: nat| d >= 1 implies #[trigger] names_below("{{first_name}} {{street_suffix}}"@, d) by {
        lemma_names_below_mono("{{first_name}} {{street_suffix}}"@, 1, d);
    }
}

#[verifier::rlimit(50)]
#[verifier::spinoff_prover]
proof fn lemma_template_23()
    ensures
        names_known("{{last_name}} {{street_suffix}}"@),
        names_below("{{last_name}} {{street_suffix}}"@, 1),
        forall|d: nat| d >= 1 ==> #[trigger] names_below("{{last_name}} {{street_suffix}}"@, d),
{
    reveal(names_known);
    reveal_strlit("{{last_name}} {{street_suffix}}");
    reveal_strlit("last_name");
    lemma_names_plain(Formatter::LastName);
    reveal_strlit("street_suffix");
    lemma_names_plain(Formatter::StreetSuffix);
    let ps = seq![Piece::Name(Formatter::LastName.name_spec()), Piece::Text(' '), Piece::Name(Formatter::StreetSuffix.name_spec())];
    reveal_with_fuel(text_of, 4);
    lemma_pieces_of_text(Seq::empty(), ps);
    assert(Seq::<char>::empty() + text_of(ps) =~= text_of(ps));
    assert("{{last_name}} {{street_suffix}}"@ =~= text_of(ps));
    assert(all_known(ps));
    assert(names_below("{{last_name}} {{street_suffix}}"@, 1));
    assert forall|d: nat| d >= 1 implies #[trigger] names_below("{{last_name}} {{street_suffix}}"@, d) by {
        lemma_names_below_mono("{{last_name}} {{street_suffix}}"@, 1, d);
    }
}

#[verifier::rlimit(50)]
#[verifier::spinoff_prover]
proof fn lemma_template_24()
    ensures
        names_known("{{last_name}} {{company_suffix}}"@),
        names_below("{{last_name}} {{company_suffix}}"@, 1),
        forall|d: nat| d >= 1 ==> #[trigger] names_below("{{last_name}} {{company_suffix}}"@, d),
{
    reveal(names_known);
    reveal_strlit("{{last_name}} {{company_suffix}}");
    reveal_strlit("last_name");
    lemma_names_plain(Formatter::LastName);
    reveal_strlit("company_suffix");
    lemma_names_plain(Formatter::CompanySuffix);
    let ps = seq![Piece::Name(Formatter::LastName.name_spec()), Piece::Text(' '), Piece::Name(Formatter::CompanySuffix.name_spec())];
    reveal_with_fuel(text_of, 4);
    lemma_pieces_of_text(Seq::empty(), ps);
    assert(Seq::<char>::empty() + text_of(ps) =~= text_of(ps));
    assert("{{last_name}} {{company_suffix}}"@ =~= text_of(ps));
    assert(all_known(ps));
    assert(names_below("{{last_name}} {{company_suffix}}"@, 1));
    assert forall|d: nat| d >= 1 implies #[trigger] names_below("{{last_name}} {{company_suffix}}"@, d) by {
        lemma_names_below_mono("{{last_name}} {{company_suffix}}"@, 1, d);
    }
}

#[verifier::rlimit(50)]
#[verifier::spinoff_prover]
proof fn lemma_template_25()
    ensures
        names_known("{{last_name}}-{{last_name}}"@),
        names_below("{{last_name}}-{{last_name}}"@, 1),
        forall|d: nat| d >= 1 ==> #[trigger] names_below("{{last_name}}-{{last_name}}"@, d),
{
    reveal(names_known);
    reveal_strlit("{{last_name}}-{{last_name}}");
    reveal_strlit("last_name");
    lemma_names_plain(Formatter::LastName);
    let ps = seq![Piece::Name(Formatter::LastName.name_spec()), Piece::Text('-'), Piece::Name(Formatter::LastName.name_spec())];
    reveal_with_fuel(text_of, 4);
    lemma_pieces_of_text(Seq::empty(), ps);
    assert(Seq::<char>::empty() + text_of(ps) =~= text_of(ps));
    assert("{{last_name}}-{{last_name}}"@ =~= text_of(ps));
    assert(all_known(ps));
    assert(names_below("{{last_name}}-{{last_name}}"@, 1));
    assert forall|d: nat| d >= 1 implies #[trigger] names_below("{{last_name}}-{{last_name}}"@, d) by {
        lemma_names_below_mono("{{last_name}}-{{last_name}}"@, 1, d);
    }
}

#[verifier::rlimit(50)]
#[verifier::spinoff_prover]
proof fn lemma_template_26()
    ensures
        names_known("{{last_name}}, {{last_name}} and {{last_name}}"@),
        names_below("{{last_name}}, {{last_name}} and {{last_name}}"@, 1),
        forall|d: nat| d >= 1 ==> #[trigger] names_below("{{last_name}}, {{last_name}} and {{last_name}}"@, d),
{
    reveal(names_known);
    reveal_strlit("{{last_name}}, {{last_name}} and {{last_name}}");
    reveal_strlit("last_name");
    lemma_names_plain(Formatter::LastName);
    let ps = seq![Piece::Name(Formatter::LastName.name_spec()), Piece::Text(','), Piece::Text(' '), Piece::Name(Formatter::LastName.name_spec()), Piece::Text(' '), Piece::Text('a'), Piece::Text('n'), Piece::Text('d'), Piece::Text(' '), Piece::Name(Formatter::LastName.name_spec())];
    reveal_with_fuel(text_of, 11);
    lemma_pieces_of_text(Seq::empty(), ps);
    assert(Seq::<char>::empty() + text_of(ps) =~= text_of(ps));
    assert("{{last_name}}, {{last_name}} and {{last_name}}"@ =~= text_of(ps));
    assert(all_known(ps));
    assert(names_below("{{last_name}}, {{last_name}} and {{last_name}}"@, 1));
    assert forall|d: nat| d >= 1 implies #[trigger] names_below("{{last_name}}, {{last_name}} and {{last_name}}"@, d) by {
        lemma_names_below_mono("{{last_name}}, {{last_name}} and {{last_name}}"@, 1, d);
    }
}

#[verifier::rlimit(50)]
#[verifier::spinoff_prover]
proof fn lemma_template_27()
    ensures
        names_known("{{user_name}}@{{domain_name}}"@),
        names_below("{{user_name}}@{{domain_name}}"@, 3),
        forall|d: nat| d >= 3 ==> #[trigger] names_below("{{user_name}}@{{domain_name}}"@, d),
{
    reveal(names_known);
    reveal_strlit("{{user_name}}@{{domain_name}}");
    reveal_strlit("user_name");
    lemma_names_plain(Formatter::UserName);
    reveal_strlit("domain_name");
    lemma_names_plain(Formatter::DomainName);
    let ps = seq![Piece::Name(Formatter::UserName.name_spec()), Piece::Text('@'), Piece::Name(Formatter::DomainName.name_spec())];
    reveal_with_fuel(text_of, 4);
    lemma_pieces_of_text(Seq::empty(), ps);
    assert(Seq::<char>::empty() + text_of(ps) =~= text_of(ps));
    assert("{{user_name}}@{{domain_name}}"@ =~= text_of(ps));
    assert(all_known(ps));
    assert(names_below("{{user_name}}@{{domain_name}}"@, 3));
    assert forall|d: nat| d >= 3 implies #[trigger] names_below("{{user_name}}@{{domain_name}}"@, d) by {
        lemma_names_below_mono("{{user_name}}@{{domain_name}}"@, 3, d);
    }
}

#[verifier::rlimit(50)]
#[verifier::spinoff_prover]
proof fn lemma_template_28()
    ensures
        names_known("{{user_name}}@{{free_email_domain}}"@),
        names_below("{{user_name}}@{{free_email_domain}}"@, 2),
        forall|d: nat| d >= 2 ==> #[trigger] names_below("{{user_name}}@{{free_email_domain}}"@, d),
{
    reveal(names_known);
    reveal_strlit("{{user_name}}@{{free_email_domain}}");
    reveal_strlit("user_name");
    lemma_names_plain(Formatter::UserName);
    reveal_strlit("free_email_domain");
    lemma_names_plain(Formatter::FreeEmailDomain);
    let ps = seq![Piece::Name(Formatter::UserName.name_spec()), Piece::Text('@'), Piece::Name(Formatter::FreeEmailDomain.name_spec())];
    reveal_with_fuel(text_of, 4);
    lemma_pieces_of_text(Seq::empty(), ps);
    assert(Seq::<char>::empty() + text_of(ps) =~= text_of(ps));
    assert("{{user_name}}@{{free_email_domain}}"@ =~= text_of(ps));
    assert(all_known(ps));
    assert(names_below("{{user_name}}@{{free_email_domain}}"@, 2));
    assert forall|d: nat| d >= 2 implies #[trigger] names_below("{{user_name}}@{{free_email_domain}}"@, d) by {
        lemma_names_below_mono("{{user_name}}@{{free_email_domain}}"@, 2, d);
    }
}

#[verifier::rlimit(50)]
#[verifier::spinoff_prover]
proof fn lemma_template_29()
    ensures
        names_known("www.{{domain_name}}/"@),
        names_below("www.{{domain_name}}/"@, 3),
        forall|d: nat| d >= 3 ==> #[trigger] names_below("www.{{domain_name}}/"@, d),
{
    reveal(names_known);
    reveal_strlit("www.{{domain_name}}/");
    reveal_strlit("domain_name");
    lemma_names_plain(Formatter::DomainName);
    let ps = seq![Piece::Text('w'), Piece::Text('w'), Piece::Text('w'), Piece::Text('.'), Piece::Name(Formatter::DomainName.name_spec()), Piece::Text('/')];
    reveal_with_fuel(text_of, 7);
    lemma_pieces_of_text(Seq::empty(), ps);
    assert(Seq::<char>::empty() + text_of(ps) =~= text_of(ps));
    assert("www.{{domain_name}}/"@ =~= text_of(ps));
    assert(all_known(ps));
    assert(names_below("www.{{domain_name}}/"@, 3));
    assert forall|d: nat| d >= 3 implies #[trigger] names_below("www.{{domain_name}}/"@, d) by {
        lemma_names_below_mono("www.{{domain_name}}/"@, 3, d);
    }
}

#[verifier::rlimit(50)]
#[verifier::spinoff_prover]
proof fn lemma_template_30()
    ensures
        names_known("{{domain_name}}/"@),
        names_below("{{domain_name}}/"@, 3),
        forall|d: nat| d >= 3 ==> #[trigger] names_below("{{domain_name}}/"@, d),
{
    reveal(names_known);
    reveal_strlit("{{domain_name}}/");
    reveal_strlit("domain_name");
    lemma_names_plain(Formatter::DomainName);
    let ps = seq![Piece::Name(Formatter::DomainName.name_spec()), Piece::Text('/')];
    reveal_with_fuel(text_of, 3);
    lemma_pieces_of_text(Seq::empty(), ps);
    assert(Seq::<char>::empty() + text_of(ps) =~= text_of(ps));
    assert("{{domain_name}}/"@ =~= text_of(ps));
    assert(all_known(ps));
    assert(names_below("{{domain_name}}/"@, 3));
    assert forall|d: nat| d >= 3 implies #[trigger] names_below("{{domain_name}}/"@, d) by {
        lemma_names_below_mono("{{domain_name}}/"@, 3, d);
    }
}

#[verifier::rlimit(50)]
#[verifier::spinoff_prover]
proof fn lemma_template_31()
    ensures
        names_known("{{last_name}}.{{first_name}}"@),
        names_below("{{last_name}}.{{first_name}}"@, 1),
        forall|d: nat| d >= 1 ==> #[trigger] names_below("{{last_name}}.{{first_name}}"@, d),
{
    reveal(names_known);
    reveal_strlit("{{last_name}}.{{first_name}}");
    reveal_strlit("last_name");
    lemma_names_plain(Formatter::LastName);
    reveal_strlit("first_name");
    lemma_names_plain(Formatter::FirstName);
    let ps = seq![Piece::Name(Formatter::LastName.name_spec()), Piece::Text('.'), Piece::Name(Formatter::FirstName.name_spec())];
    reveal_with_fuel(text_of, 4);
    lemma_pieces_of_text(Seq::empty(), ps);
    assert(Seq::<char>::empty() + text_of(ps) =~= text_of(ps));
    assert("{{last_name}}.{{first_name}}"@ =~= text_of(ps));
    assert(all_known(ps));
    assert(names_below("{{last_name}}.{{first_name}}"@, 1));
    assert forall|d: nat| d >= 1 implies #[trigger] names_below("{{last_name}}.{{first_name}}"@, d) by {
        lemma_names_below_mono("{{last_name}}.{{first_name}}"@, 1, d);
    }
}

#[verifier::rlimit(50)]
#[verifier::spinoff_prover]
proof fn lemma_template_32()
    ensures
        names_known("{{first_name}}.{{last_name}}"@),
        names_below("{{first_name}}.{{last_name}}"@, 1),
        forall|d: nat| d >= 1 ==> #[trigger] names_below("{{first_name}}.{{last_name}}"@, d),
{
    reveal(names_known);
    reveal_strlit("{{first_name}}.{{last_name}}");
    reveal_strlit("first_name");
    lemma_names_plain(Formatter::FirstName);
    reveal_strlit("last_name");
    lemma_names_plain(Formatter::LastName);
    let ps = seq![Piece::Name(Formatter::FirstName.name_spec()), Piece::Text('.'), Piece::Name(Formatter::LastName.name_spec())];
    reveal_with_fuel(text_of, 4);
    lemma_pieces_of_text(Seq::empty(), ps);
    assert(Seq::<char>::empty() + text_of(ps) =~= text_of(ps));
    assert("{{first_name}}.{{last_name}}"@ =~= text_of(ps));
    assert(all_known(ps));
    assert(names_below("{{first_name}}.{{last_name}}"@, 1));
    assert forall|d: nat| d >= 1 implies #[trigger] names_below("{{first_name}}.{{last_name}}"@, d) by {
        lemma_names_below_mono("{{first_name}}.{{last_name}}"@, 1, d);
    }
}

#[verifier::rlimit(50)]
#[verifier::spinoff_prover]
proof fn lemma_template_33()
    ensures
        names_known("{{first_name}}##"@),
        names_below("{{first_name}}##"@, 1),
        forall|d: nat| d >= 1 ==> #[trigger] names_below("{{first_name}}##"@, d),
{
    reveal(names_known);
    reveal_strlit("{{first_name}}##");
    reveal_strlit("first_name");
    lemma_names_plain(Formatter::FirstName);
    let ps = seq![Piece::Name(Formatter::FirstName.name_spec()), Piece::Text('#'), Piece::Text('#')];
    reveal_with_fuel(text_of, 4);
    lemma_pieces_of_text(Seq::empty(), ps);
    assert(Seq::<char>::empty() + text_of(ps) =~= text_of(ps));
    assert("{{first_name}}##"@ =~= text_of(ps));
    assert(all_known(ps));
    assert(names_below("{{first_name}}##"@, 1));
    assert forall|d: nat| d >= 1 implies #[trigger] names_below("{{first_name}}##"@, d) by {
        lemma_names_below_mono("{{first_name}}##"@, 1, d);
    }
}

#[verifier::rlimit(50)]
#[verifier::spinoff_prover]
proof fn lemma_template_34()
    ensures
        names_known("?{{last_name}}"@),
        names_below("?{{last_name}}"@, 1),
        forall|d: nat| d >= 1 ==> #[trigger] names_below("?{{last_name}}"@, d),
{
    reveal(names_known);
    reveal_strlit("?{{last_name}}");
    reveal_strlit("last_name");
    lemma_names_plain(Formatter::LastName);
    let ps = seq![Piece::Text('?'), Piece::Name(Formatter::LastName.name_spec())];
    reveal_with_fuel(text_of, 3);
    lemma_pieces_of_text(Seq::empty(), ps);
    assert(Seq::<char>::empty() + text_of(ps) =~= text_of(ps));
    assert("?{{last_name}}"@ =~= text_of(ps));
    assert(all_known(ps));
    assert(names_below("?{{last_name}}"@, 1));
    assert forall|d: nat| d >= 1 implies #[trigger] names_below("?{{last_name}}"@, d) by {
        lemma_names_below_mono("?{{last_name}}"@, 1, d);
    }
}

#[verifier::rlimit(50)]
#[verifier::spinoff_prover]
proof fn lemma_template_35()
    ensures
        names_known("###-###-####"@),
        names_below("###-###-####"@, 1),
        forall|d: nat| d >= 1 ==> #[trigger] names_below("###-###-####"@, d),
{
    reveal(names_known);
    reveal_strlit("###-###-####");
    let ps = seq![Piece::Text('#'), Piece::Text('#'), Piece::Text('#'), Piece::Text('-'), Piece::Text('#'), Piece::Text('#'), Piece::Text('#'), Piece::Text('-'), Piece::Text('#'), Piece::Text('#'), Piece::Text('#'), Piece::Text('#')];
    reveal_with_fuel(text_of, 13);
    lemma_pieces_of_text(Seq::empty(), ps);
    assert(Seq::<char>::empty() + text_of(ps) =~= text_of(ps));
    assert("###-###-####"@ =~= text_of(ps));
    assert(all_known(ps));
    assert(names_below("###-###-####"@, 1));
    assert forall|d: nat| d >= 1 implies #[trigger] names_below("###-###-####"@, d) by {
        lemma_names_below_mono("###-###-####"@, 1, d);
    }
}

#[verifier::rlimit(50)]
#[verifier::spinoff_prover]
proof fn lemma_template_36()
    ensures
        names_known("(###)###-####"@),
        names_below("(###)###-####"@, 1),
        forall|d: nat| d >= 1 ==> #[trigger] names_below("(###)###-####"@, d),
{
    reveal(names_known);
    reveal_strlit("(###)###-####");
    let ps = seq![Piece::Text('('), Piece::Text('#'), Piece::Text('#'), Piece::Text('#'), Piece::Text(')'), Piece::Text('#'), Piece::Text('#'), Piece::Text('#'), Piece::Text('-'), Piece::Text('#'), Piece::Text('#'), Piece::Text('#'), Piece::Text('#')];
    reveal_with_fuel(text_of, 14);
    lemma_pieces_of_text(Seq::empty(), ps);
    assert(Seq::<char>::empty() + text_of(ps) =~= text_of(ps));
    assert("(###)###-####"@ =~= text_of(ps));
    assert(all_known(ps));
    assert(names_below("(###)###-####"@, 1));
    assert forall|d: nat| d >= 1 implies #[trigger] names_below("(###)###-####"@, d) by {
        lemma_names_below_mono("(###)###-####"@, 1, d);
    }
}

#[verifier::rlimit(50)]
#[verifier::spinoff_prover]
proof fn lemma_template_37()
    ensures
        names_known("###.###.####"@),
        names_below("###.###.####"@, 1),
        forall|d: nat| d >= 1 ==> #[trigger] names_below("###.###.####"@, d),
{
    reveal(names_known);
    reveal_strlit("###.###.####");
    let ps = seq![Piece::Text('#'), Piece::Text('#'), Piece::Text('#'), Piece::Text('.'), Piece::Text('#'), Piece::Text('#'), Piece::Text('#'), Piece::Text('.'), Piece::Text('#'), Piece::Text('#'), Piece::Text('#'), Piece::Text('#')];
    reveal_with_fuel(text_of, 13);
    lemma_pieces_of_text(Seq::empty(), ps);
    assert(Seq::<char>::empty() + text_of(ps) =~= text_of(ps));
    assert("###.###.####"@ =~= text_of(ps));
    assert(all_known(ps));
    assert(names_below("###.###.####"@, 1));
    assert forall|d: nat| d >= 1 implies #[trigger] names_below("###.###.####"@, d) by {
        lemma_names_below_mono("###.###.####"@, 1, d);
    }
}


/// The `en_US` first names.
pub open spec fn en_us_first_names() -> Seq<Seq<char>> {
    seq!["Alexandra"@, "Alicia"@, "Allison"@, "Amanda"@, "Amy"@, "Angela"@, "Anna"@, "Ashley"@, "Barbara"@, "Brenda"@, "Brittany"@, "Carol"@, "Catherine"@, "Christina"@, "Christine"@, "Cynthia"@, "Deborah"@, "Denise"@, "Diana"@, "Donna"@, "Elizabeth"@, "Emily"@, "Erin"@, "Heather"@, "Jennifer"@, "Jessica"@, "Julie"@, "Karen"@, "Katherine"@, "Kelly"@, "Kimberly"@, "Laura"@, "Linda"@, "Lisa"@, "Margaret"@, "Maria"@, "Mary"@, "Megan"@, "Melissa"@, "Michelle"@, "Nancy"@, "Nicole"@, "Pamela"@, "Patricia"@, "Rachel"@, "Rebecca"@, "Sarah"@, "Sharon"@, "Stephanie"@, "Susan"@, "Tammy"@, "Teresa"@, "Tiffany"@, "Victoria"@, "Aaron"@, "Adam"@, "Alan"@, "Andrew"@, "Anthony"@, "Benjamin"@, "Brandon"@, "Brian"@, "Charles"@, "Christopher"@, "Daniel"@, "David"@, "Dennis"@, "Donald"@, "Douglas"@, "Edward"@, "Eric"@, "Gary"@, "George"@, "Gregory"@, "James"@, "Jason"@, "Jeffrey"@, "Jeremy"@, "John"@, "Jonathan"@, "Joseph"@, "Joshua"@, "Justin"@, "Kenneth"@, "Kevin"@, "Mark"@, "Matthew"@, "Michael"@, "Nicholas"@, "Patrick"@, "Paul"@, "Richard"@, "Robert"@, "Ronald"@, "Ryan"@, "Scott"@, "Stephen"@, "Steven"@, "Thomas"@, "Timothy"@, "Tyler"@, "William"@, "Zachary"@]
}

/// The `en_US` domains safe for e-mail examples.
pub open spec fn en_us_safe_domains() -> Seq<Seq<char>> {
    seq!["example.com"@, "example.net"@, "example.org"@]
}

/// The `en_US` free e-mail domains.
pub open spec fn en_us_free_email_domains() -> Seq<Seq<char>> {
    seq!["gmail.com"@, "yahoo.com"@, "hotmail.com"@]
}

/// The `en_US` state abbreviations.
pub open spec fn en_us_states_abbr() -> Seq<Seq<char>> {
    seq!["AL"@, "AK"@, "AZ"@, "AR"@, "CA"@, "CO"@, "CT"@, "DE"@, "DC"@, "FL"@, "GA"@, "HI"@, "ID"@, "IL"@, "IN"@, "IA"@, "KS"@, "KY"@, "LA"@, "ME"@, "MD"@, "MA"@, "MI"@, "MN"@, "MS"@, "MO"@, "MT"@, "NE"@, "NV"@, "NH"@, "NJ"@, "NM"@, "NY"@, "NC"@, "ND"@, "OH"@, "OK"@, "OR"@, "PA"@, "RI"@, "SC"@, "SD"@, "TN"@, "TX"@, "UT"@, "VT"@, "VA"@, "WA"@, "WV"@, "WI"@, "WY"@]
}

/// The `en_US` postcode ranges: state abbreviation, lowest and highest postcode.
pub open spec fn en_us_postcode_ranges() -> Seq<(Seq<char>, u32, u32)> {
    seq![("AL"@, 35004, 36925), ("AK"@, 99501, 99950), ("AZ"@, 85001, 86556), ("AR"@, 71601, 72959), ("CA"@, 90001, 96162), ("CO"@, 80001, 81658), ("CT"@, 6001, 6389), ("DE"@, 19701, 19980), ("DC"@, 20001, 20039), ("FL"@, 32004, 34997), ("GA"@, 30001, 31999), ("HI"@, 96701, 96898), ("ID"@, 83201, 83876), ("IL"@, 60001, 62999), ("IN"@, 46001, 47997), ("IA"@, 50001, 52809), ("KS"@, 66002, 67954), ("KY"@, 40003, 42788), ("LA"@, 70001, 71232), ("ME"@, 3901, 4992), ("MD"@, 20812, 21930), ("MA"@, 1001, 2791), ("MI"@, 48001, 49971), ("MN"@, 55001, 56763), ("MS"@, 38601, 39776), ("MO"@, 63001, 65899), ("MT"@, 59001, 59937), ("NE"@, 68001, 68118), ("NV"@, 88901, 89883), ("NH"@, 3031, 3897), ("NJ"@, 7001, 8989), ("NM"@, 87001, 88441), ("NY"@, 10001, 14905), ("NC"@, 27006, 28909), ("ND"@, 58001, 58856), ("OH"@, 43001, 45999), ("OK"@, 73001, 73199), ("OR"@, 97001, 97920), ("PA"@, 15001, 19640), ("RI"@, 2801, 2940), ("SC"@, 29001, 29948), ("SD"@, 57001, 57799), ("TN"@, 37010, 38589), ("TX"@, 75503, 79999), ("UT"@, 84001, 84784), ("VT"@, 5001, 5495), ("VA"@, 22001, 24658), ("WA"@, 98001, 99403), ("WV"@, 24701, 26886), ("WI"@, 53001, 54990), ("WY"@, 82001, 83128), ("AS"@, 96799, 96799), ("GU"@, 96910, 96932), ("MP"@, 96950, 96952), ("PR"@, 600, 799), ("VI"@, 801, 851), ("FM"@, 96941, 96944), ("MH"@, 96960, 96970), ("PW"@, 96940, 96940), ("AA"@, 34004, 34095), ("AE"@, 9001, 9999), ("AP"@, 96201, 96698)]
}

/// The views of the strings of `v`.
pub open spec fn views(v: Seq<String>) -> Seq<Seq<char>> {
    v.map_values(|x: String| x@)
}

/// The views of postcode ranges.
pub open spec fn range_views(v: Seq<(String, u32, u32)>) -> Seq<(Seq<char>, u32, u32)> {
    v.map_values(|e: (String, u32, u32)| (e.0@, e.1, e.2))
}

/// The `en_US` territory abbreviations.
pub open spec fn en_us_territories_abbr() -> Seq<Seq<char>> {
    seq!["AS"@, "GU"@, "MP"@, "PR"@, "VI"@]
}

/// The `en_US` parts of speech, in order.
pub open spec fn en_us_parts_of_speech() -> Seq<Seq<char>> {
    seq!["verb"@, "noun"@, "adverb"@, "adjective"@]
}

/// The names of parts of speech.
pub open spec fn part_names(p: Seq<(String, Vec<String>)>) -> Seq<Seq<char>> {
    p.map_values(|e: (String, Vec<String>)| e.0@)
}

/// The `en_US` lorem settings: the word connector, the sentence punctuation and the parts of
/// speech, each with words.
pub open spec fn en_us_lorem_contents(l: LoremData) -> bool {
    &&& l.word_connector@ == " "@
    &&& l.sentence_punctuation@ == "."@
    &&& l.parts_of_speech matches Some(p) && part_names(p@) == en_us_parts_of_speech() && (forall|i: int|
        0 <= i < p.len() ==> (#[trigger] p@[i]).1.len() > 0)
}

/// What the `en_US` tables hold that the providers' documented examples rest on: the first
/// names, the safe and free e-mail domains, the state and territory abbreviations, the
/// postcode ranges and the lorem settings.
pub open spec fn en_us_contents(l: Locale) -> bool {
    &&& l.address.territories_abbr matches Some(t) && views(t.items@) == en_us_territories_abbr()
    &&& en_us_lorem_contents(l.lorem)
    &&& views(l.person.first_names.items@) == en_us_first_names()
    &&& l.person.first_names.cum_weights is None
    &&& views(l.internet.safe_domain_names.items@) == en_us_safe_domains()
    &&& views(l.internet.free_email_domains.items@) == en_us_free_email_domains()
    &&& l.address.states_abbr matches Some(t) && views(t.items@) == en_us_states_abbr()
    &&& l.address.states_postcode matches Some(v) && range_views(v@) == en_us_postcode_ranges()
}

/// The `en_US` person tables.
#[verifier::rlimit(100)]
#[verifier::spinoff_prover]
fn en_us_person() -> (r: Option<PersonData>)
    ensures
        r is Some,
        r matches Some(x) ==> x.wf() && views(x.first_names.items@) == en_us_first_names()
            && x.first_names.cum_weights is None,
{
    proof {
        lemma_template_0(); lemma_template_1(); lemma_template_2(); lemma_template_3();
    }
    let formats_female_texts: &[&str] = &["{{first_name_female}} {{last_name}}", "{{prefix_female}} {{first_name_female}} {{last_name}}", "{{first_name_female}} {{last_name}} {{suffix_female}}", "{{prefix_female}} {{first_name_female}} {{last_name}} {{suffix_female}}"];
    let formats_female = templates(formats_female_texts, Some(&[970, 15, 20, 5]))?;
    proof {
        lemma_group_below(formats_female, formats_female_texts@, 3);
    }
    proof {
        lemma_template_4(); lemma_template_5(); lemma_template_6(); lemma_template_7();
    }
    let formats_male_texts: &[&str] = &["{{first_name_male}} {{last_name}}", "{{prefix_male}} {{first_name_male}} {{last_name}}", "{{first_name_male}} {{last_name}} {{suffix_male}}", "{{prefix_male}} {{first_name_male}} {{last_name}} {{suffix_male}}"];
    let formats_male = templates(formats_male_texts, Some(&[970, 15, 20, 5]))?;
    proof {
        lemma_group_below(formats_male, formats_male_texts@, 3);
    }
    proof {
        lemma_template_8(); lemma_template_9(); lemma_template_10(); lemma_template_11();
    }
    let formats_nonbinary_texts: &[&str] = &["{{first_name_nonbinary}} {{last_name}}", "{{prefix_nonbinary}} {{first_name_nonbinary}} {{last_name}}", "{{first_name_nonbinary}} {{last_name}} {{suffix_nonbinary}}", "{{prefix_nonbinary}} {{first_name_nonbinary}} {{last_name}} {{suffix_nonbinary}}"];
    let formats_nonbinary = templates(formats_nonbinary_texts, Some(&[970, 15, 20, 5]))?;
    proof {
        lemma_group_below(formats_nonbinary, formats_nonbinary_texts@, 3);
    }
    proof {
        lemma_template_4(); lemma_template_5(); lemma_template_6(); lemma_template_7(); lemma_template_0(); lemma_template_1(); lemma_template_2(); lemma_template_3(); lemma_template_8(); lemma_template_9(); lemma_template_10(); lemma_template_11();
    }
    let formats_texts: &[&str] = &["{{first_name_male}} {{last_name}}", "{{prefix_male}} {{first_name_male}} {{last_name}}", "{{first_name_male}} {{last_name}} {{suffix_male}}", "{{prefix_male}} {{first_name_male}} {{last_name}} {{suffix_male}}", "{{first_name_female}} {{last_name}}", "{{prefix_female}} {{first_name_female}} {{last_name}}", "{{first_name_female}} {{last_name}} {{suffix_female}}", "{{prefix_female}} {{first_name_female}} {{last_name}} {{suffix_female}}", "{{first_name_nonbinary}} {{last_name}}", "{{prefix_nonbinary}} {{first_name_nonbinary}} {{last_name}}", "{{first_name_nonbinary}} {{last_name}} {{suffix_nonbinary}}", "{{prefix_nonbinary}} {{first_name_nonbinary}} {{last_name}} {{suffix_nonbinary}}"];
    let formats = templates(formats_texts, Some(&[970, 15, 20, 5, 970, 15, 20, 5, 970, 15, 20, 5]))?;
    proof {
        lemma_group_below(formats, formats_texts@, 3);
    }
    let first_names_female = uniform(&["Alexandra", "Alicia", "Allison", "Amanda", "Amy", "Angela", "Anna", "Ashley", "Barbara", "Brenda", "Brittany", "Carol", "Catherine", "Christina", "Christine", "Cynthia", "Deborah", "Denise", "Diana", "Donna", "Elizabeth", "Emily", "Erin", "Heather", "Jennifer", "Jessica", "Julie", "Karen", "Katherine", "Kelly", "Kimberly", "Laura", "Linda", "Lisa", "Margaret", "Maria", "Mary", "Megan", "Melissa", "Michelle", "Nancy", "Nicole", "Pamela", "Patricia", "Rachel", "Rebecca", "Sarah", "Sharon", "Stephanie", "Susan", "Tammy", "Teresa", "Tiffany", "Victoria"]);
    let first_names_male = uniform(&["Aaron", "Adam", "Alan", "Andrew", "Anthony", "Benjamin", "Brandon", "Brian", "Charles", "Christopher", "Daniel", "David", "Dennis", "Donald", "Douglas", "Edward", "Eric", "Gary", "George", "Gregory", "James", "Jason", "Jeffrey", "Jeremy", "John", "Jonathan", "Joseph", "Joshua", "Justin", "Kenneth", "Kevin", "Mark", "Matthew", "Michael", "Nicholas", "Patrick", "Paul", "Richard", "Robert", "Ronald", "Ryan", "Scott", "Stephen", "Steven", "Thomas", "Timothy", "Tyler", "William", "Zachary"]);
    let first_names_nonbinary = uniform(&["Alexandra", "Alicia", "Allison", "Amanda", "Amy", "Angela", "Anna", "Ashley", "Barbara", "Brenda", "Brittany", "Carol", "Catherine", "Christina", "Christine", "Cynthia", "Deborah", "Denise", "Diana", "Donna", "Elizabeth", "Emily", "Erin", "Heather", "Jennifer", "Jessica", "Julie", "Karen", "Katherine", "Kelly", "Kimberly", "Laura", "Linda", "Lisa", "Margaret", "Maria", "Mary", "Megan", "Melissa", "Michelle", "Nancy", "Nicole", "Pamela", "Patricia", "Rachel", "Rebecca", "Sarah", "Sharon", "Stephanie", "Susan", "Tammy", "Teresa", "Tiffany", "Victoria", "Aaron", "Adam", "Alan", "Andrew", "Anthony", "Benjamin", "Brandon", "Brian", "Charles", "Christopher", "Daniel", "David", "Dennis", "Donald", "Douglas", "Edward", "Eric", "Gary", "George", "Gregory", "James", "Jason", "Jeffrey", "Jeremy", "John", "Jonathan", "Joseph", "Joshua", "Justin", "Kenneth", "Kevin", "Mark", "Matthew", "Michael", "Nicholas", "Patrick", "Paul", "Richard", "Robert", "Ronald", "Ryan", "Scott", "Stephen", "Steven", "Thomas", "Timothy", "Tyler", "William", "Zachary"]);
    let first_names = uniform(&["Alexandra", "Alicia", "Allison", "Amanda", "Amy", "Angela", "Anna", "Ashley", "Barbara", "Brenda", "Brittany", "Carol", "Catherine", "Christina", "Christine", "Cynthia", "Deborah", "Denise", "Diana", "Donna", "Elizabeth", "Emily", "Erin", "Heather", "Jennifer", "Jessica", "Julie", "Karen", "Katherine", "Kelly", "Kimberly", "Laura", "Linda", "Lisa", "Margaret", "Maria", "Mary", "Megan", "Melissa", "Michelle", "Nancy", "Nicole", "Pamela", "Patricia", "Rachel", "Rebecca", "Sarah", "Sharon", "Stephanie", "Susan", "Tammy", "Teresa", "Tiffany", "Victoria", "Aaron", "Adam", "Alan", "Andrew", "Anthony", "Benjamin", "Brandon", "Brian", "Charles", "Christopher", "Daniel", "David", "Dennis", "Donald", "Douglas", "Edward", "Eric", "Gary", "George", "Gregory", "James", "Jason", "Jeffrey", "Jeremy", "John", "Jonathan", "Joseph", "Joshua", "Justin", "Kenneth", "Kevin", "Mark", "Matthew", "Michael", "Nicholas", "Patrick", "Paul", "Richard", "Robert", "Ronald", "Ryan", "Scott", "Stephen", "Steven", "Thomas", "Timothy", "Tyler", "William", "Zachary"]);
    let last_names = uniform(&["Adams", "Allen", "Anderson", "Bailey", "Baker", "Barnes", "Bell", "Bennett", "Brooks", "Brown", "Butler", "Campbell", "Carter", "Clark", "Collins", "Cook", "Cooper", "Cox", "Davis", "Diaz", "Edwards", "Evans", "Fisher", "Flores", "Foster", "Garcia", "Gomez", "Gonzalez", "Gray", "Green", "Hall", "Harris", "Hernandez", "Hill", "Howard", "Hughes", "Jackson", "James", "Jenkins", "Johnson", "Jones", "Kelly", "King", "Lee", "Lewis", "Long", "Lopez", "Martin", "Martinez", "Miller", "Mitchell", "Moore", "Morgan", "Morris", "Murphy", "Nelson", "Nguyen", "Nichols", "Parker", "Perez", "Perry", "Peterson", "Phillips", "Powell", "Price", "Ramirez", "Reed", "Richardson", "Rivera", "Roberts", "Robinson", "Rodriguez", "Rogers", "Ross", "Russell", "Sanchez", "Sanders", "Scott", "Smith", "Stewart", "Sullivan", "Taylor", "Thomas", "Thompson", "Torres", "Turner", "Walker", "Ward", "Watson", "White", "Williams", "Wilson", "Wood", "Wright", "Young"]);
    let prefixes_female = weighted(&["Mrs.", "Ms.", "Miss", "Dr."], &[500, 100, 100, 300]);
    let prefixes_male = weighted(&["Mr.", "Dr."], &[700, 300]);
    let prefixes_nonbinary = weighted(&["Mx.", "Misc.", "Dr."], &[500, 200, 300]);
    let suffixes_female = weighted(&["MD", "DDS", "PhD", "DVM"], &[500, 300, 100, 200]);
    let suffixes_male = weighted(&["Jr.", "Sr.", "I", "II", "III", "IV", "V", "MD", "DDS", "PhD", "DVM"], &[200, 200, 100, 100, 100, 100, 100, 300, 300, 100, 100]);
    let suffixes_nonbinary = weighted(&["Jr.", "Sr.", "I", "II", "III", "IV", "V", "MD", "DDS", "PhD", "DVM"], &[200, 200, 100, 100, 100, 100, 100, 300, 300, 100, 100]);
    let language_names = uniform(&["Afrikaans", "Albanian", "Arabic", "Armenian", "Basque", "Bengali", "Bulgarian", "Catalan", "Chinese", "Croatian", "Czech", "Danish", "Dutch", "English", "Estonian", "Finnish", "French", "German", "Greek", "Hebrew", "Hindi", "Hungarian", "Icelandic", "Indonesian", "Irish", "Italian", "Japanese", "Korean", "Latvian", "Lithuanian", "Malay", "Norwegian", "Persian", "Polish", "Portuguese", "Romanian", "Russian", "Serbian", "Slovak", "Slovenian", "Spanish", "Swahili", "Swedish", "Tamil", "Thai", "Turkish", "Ukrainian", "Urdu", "Vietnamese", "Welsh"]);
    let person = PersonData {
        formats,
        formats_female: Some(formats_female),
        formats_male: Some(formats_male),
        formats_nonbinary: Some(formats_nonbinary),
        first_names,
        first_names_female: Some(first_names_female),
        first_names_male: Some(first_names_male),
        first_names_nonbinary: Some(first_names_nonbinary),
        last_names,
        last_names_female: None,
        last_names_male: None,
        last_names_nonbinary: None,
        prefixes: None,
        prefixes_female: Some(prefixes_female),
        prefixes_male: Some(prefixes_male),
        prefixes_nonbinary: Some(prefixes_nonbinary),
        suffixes: None,
        suffixes_female: Some(suffixes_female),
        suffixes_male: Some(suffixes_male),
        suffixes_nonbinary: Some(suffixes_nonbinary),
        language_names,
    };
    Some(person)
}

/// The `en_US` address tables.
#[verifier::rlimit(100)]
#[verifier::spinoff_prover]
fn en_us_address() -> (r: Option<AddressData>)
    ensures
        r is Some,
        r matches Some(x) ==> x.wf() && (x.states_abbr matches Some(t) && views(t.items@) == en_us_states_abbr())
            && (x.states_postcode matches Some(v) && range_views(v@) == en_us_postcode_ranges())
            && (x.territories_abbr matches Some(t) && views(t.items@) == en_us_territories_abbr()),
{
    proof {
        lemma_template_12(); lemma_template_13(); lemma_template_14(); lemma_template_15();
    }
    let address_formats_texts: &[&str] = &["{{street_address}}\n{{city}}, {{state_abbr}} {{postcode}}", "{{military_apo}}\nAPO {{military_state}} {{postcode}}", "{{military_ship}} {{last_name}}\nFPO {{military_state}} {{postcode}}", "{{military_dpo}}\nDPO {{military_state}} {{postcode}}"];
    let address_formats = templates(address_formats_texts, Some(&[25, 1, 1, 1]))?;
    proof {
        lemma_group_below(address_formats, address_formats_texts@, 3);
    }
    let building_number_formats = uniform(&["#####", "####", "###"]);
    proof {
        lemma_template_16(); lemma_template_17(); lemma_template_18(); lemma_template_19();
    }
    let city_formats_texts: &[&str] = &["{{city_prefix}} {{first_name}}{{city_suffix}}", "{{city_prefix}} {{first_name}}", "{{first_name}}{{city_suffix}}", "{{last_name}}{{city_suffix}}"];
    let city_formats = templates(city_formats_texts, None)?;
    proof {
        lemma_group_below(city_formats, city_formats_texts@, 1);
    }
    let city_prefixes = uniform(&["North", "East", "West", "South", "New", "Lake", "Port"]);
    let city_suffixes = uniform(&["town", "ton", "land", "ville", "berg", "burgh", "borough", "bury", "view", "port", "mouth", "stad", "furt", "chester", "fort", "haven", "side", "shire"]);
    let countries = uniform(&["Afghanistan", "Argentina", "Australia", "Austria", "Belgium", "Brazil", "Canada", "Chile", "China", "Colombia", "Denmark", "Egypt", "Finland", "France", "Germany", "Greece", "India", "Indonesia", "Ireland", "Italy", "Japan", "Kenya", "Mexico", "Netherlands", "New Zealand", "Nigeria", "Norway", "Peru", "Poland", "Portugal", "Spain", "Sweden", "Switzerland", "Thailand", "Turkey", "United Kingdom", "United States of America", "Vietnam"]);
    let alpha_2_country_codes = uniform(&["AF", "AR", "AU", "AT", "BE", "BR", "CA", "CL", "CN", "CO", "DK", "EG", "FI", "FR", "DE", "GR", "IN", "ID", "IE", "IT", "JP", "KE", "MX", "NL", "NZ", "NG", "NO", "PE", "PL", "PT", "ES", "SE", "CH", "TH", "TR", "GB", "US", "VN"]);
    let alpha_3_country_codes = uniform(&["AFG", "ARG", "AUS", "AUT", "BEL", "BRA", "CAN", "CHL", "CHN", "COL", "DNK", "EGY", "FIN", "FRA", "DEU", "GRC", "IND", "IDN", "IRL", "ITA", "JPN", "KEN", "MEX", "NLD", "NZL", "NGA", "NOR", "PER", "POL", "PRT", "ESP", "SWE", "CHE", "THA", "TUR", "GBR", "USA", "VNM"]);
    let freely_associated_states_abbr = uniform(&["FM", "MH", "PW"]);
    let military_ship_prefix = uniform(&["USS", "USNS", "USNV", "USCGC"]);
    let military_state_abbr = uniform(&["AE", "AA", "AP"]);
    let postcode_formats = uniform(&["#####", "#####-####"]);
    let secondary_address_formats = uniform(&["Apt. ###", "Suite ###"]);
    let states = uniform(&["Alabama", "Alaska", "Arizona", "Arkansas", "California", "Colorado", "Connecticut", "Delaware", "Florida", "Georgia", "Hawaii", "Idaho", "Illinois", "Indiana", "Iowa", "Kansas", "Kentucky", "Louisiana", "Maine", "Maryland", "Massachusetts", "Michigan", "Minnesota", "Mississippi", "Missouri", "Montana", "Nebraska", "Nevada", "New Hampshire", "New Jersey", "New Mexico", "New York", "North Carolina", "North Dakota", "Ohio", "Oklahoma", "Oregon", "Pennsylvania", "Rhode Island", "South Carolina", "South Dakota", "Tennessee", "Texas", "Utah", "Vermont", "Virginia", "Washington", "West Virginia", "Wisconsin", "Wyoming"]);
    let states_abbr = uniform(&["AL", "AK", "AZ", "AR", "CA", "CO", "CT", "DE", "DC", "FL", "GA", "HI", "ID", "IL", "IN", "IA", "KS", "KY", "LA", "ME", "MD", "MA", "MI", "MN", "MS", "MO", "MT", "NE", "NV", "NH", "NJ", "NM", "NY", "NC", "ND", "OH", "OK", "OR", "PA", "RI", "SC", "SD", "TN", "TX", "UT", "VT", "VA", "WA", "WV", "WI", "WY"]);
    proof {
        lemma_template_20(); lemma_template_21();
    }
    let street_address_formats_texts: &[&str] = &["{{building_number}} {{street_name}}", "{{building_number}} {{street_name}} {{secondary_address}}"];
    let street_address_formats = templates(street_address_formats_texts, None)?;
    proof {
        lemma_group_below(street_address_formats, street_address_formats_texts@, 2);
    }
    proof {
        lemma_template_22(); lemma_template_23();
    }
    let street_name_formats_texts: &[&str] = &["{{first_name}} {{street_suffix}}", "{{last_name}} {{street_suffix}}"];
    let street_name_formats = templates(street_name_formats_texts, None)?;
    proof {
        lemma_group_below(street_name_formats, street_name_formats_texts@, 1);
    }
    let street_suffixes = uniform(&["Alley", "Avenue", "Branch", "Bridge", "Brook", "Burg", "Bypass", "Camp", "Canyon", "Cape", "Center", "Circle", "Cliff", "Club", "Common", "Corner", "Course", "Court", "Cove", "Creek", "Crescent", "Crossing", "Curve", "Dale", "Dam", "Divide", "Drive", "Estate", "Expressway", "Extension", "Falls", "Ferry", "Field", "Flat", "Ford", "Forest", "Fork", "Fort", "Freeway", "Garden", "Gateway", "Glen", "Green", "Grove", "Harbor", "Haven", "Heights", "Highway", "Hill", "Hills", "Hollow", "Island", "Isle", "Junction", "Key", "Knoll", "Lake", "Land", "Landing", "Lane", "Light", "Loaf", "Lock", "Lodge", "Loop", "Mall", "Manor", "Meadow", "Mill", "Mission", "Mount", "Mountain", "Neck", "Orchard", "Oval", "Park", "Parkway", "Pass", "Path", "Pike", "Pine", "Place", "Plain", "Plaza", "Point", "Port", "Prairie", "Radial", "Ranch", "Rapid", "Rest", "Ridge", "River", "Road", "Route", "Row", "Run", "Shoal", "Shore", "Skyway", "Spring", "Springs", "Square", "Station", "Stravenue", "Stream", "Street", "Summit", "Terrace", "Throughway", "Trace", "Track", "Trail", "Tunnel", "Turnpike", "Underpass", "Union", "Valley", "Via", "Viaduct", "View", "Village", "Ville", "Vista", "Walk", "Wall", "Way", "Well", "Wells"]);
    let territories_abbr = uniform(&["AS", "GU", "MP", "PR", "VI"]);
    let mut states_postcode: Vec<(String, u32, u32)> = Vec::new();
    states_postcode.push(("AL".to_owned(), 35004, 36925));
    states_postcode.push(("AK".to_owned(), 99501, 99950));
    states_postcode.push(("AZ".to_owned(), 85001, 86556));
    states_postcode.push(("AR".to_owned(), 71601, 72959));
    states_postcode.push(("CA".to_owned(), 90001, 96162));
    states_postcode.push(("CO".to_owned(), 80001, 81658));
    states_postcode.push(("CT".to_owned(), 6001, 6389));
    states_postcode.push(("DE".to_owned(), 19701, 19980));
    states_postcode.push(("DC".to_owned(), 20001, 20039));
    states_postcode.push(("FL".to_owned(), 32004, 34997));
    states_postcode.push(("GA".to_owned(), 30001, 31999));
    states_postcode.push(("HI".to_owned(), 96701, 96898));
    states_postcode.push(("ID".to_owned(), 83201, 83876));
    states_postcode.push(("IL".to_owned(), 60001, 62999));
    states_postcode.push(("IN".to_owned(), 46001, 47997));
    states_postcode.push(("IA".to_owned(), 50001, 52809));
    states_postcode.push(("KS".to_owned(), 66002, 67954));
    states_postcode.push(("KY".to_owned(), 40003, 42788));
    states_postcode.push(("LA".to_owned(), 70001, 71232));
    states_postcode.push(("ME".to_owned(), 3901, 4992));
    states_postcode.push(("MD".to_owned(), 20812, 21930));
    states_postcode.push(("MA".to_owned(), 1001, 2791));
    states_postcode.push(("MI".to_owned(), 48001, 49971));
    states_postcode.push(("MN".to_owned(), 55001, 56763));
    states_postcode.push(("MS".to_owned(), 38601, 39776));
    states_postcode.push(("MO".to_owned(), 63001, 65899));
    states_postcode.push(("MT".to_owned(), 59001, 59937));
    states_postcode.push(("NE".to_owned(), 68001, 68118));
    states_postcode.push(("NV".to_owned(), 88901, 89883));
    states_postcode.push(("NH".to_owned(), 3031, 3897));
    states_postcode.push(("NJ".to_owned(), 7001, 8989));
    states_postcode.push(("NM".to_owned(), 87001, 88441));
    states_postcode.push(("NY".to_owned(), 10001, 14905));
    states_postcode.push(("NC".to_owned(), 27006, 28909));
    states_postcode.push(("ND".to_owned(), 58001, 58856));
    states_postcode.push(("OH".to_owned(), 43001, 45999));
    states_postcode.push(("OK".to_owned(), 73001, 73199));
    states_postcode.push(("OR".to_owned(), 97001, 97920));
    states_postcode.push(("PA".to_owned(), 15001, 19640));
    states_postcode.push(("RI".to_owned(), 2801, 2940));
    states_postcode.push(("SC".to_owned(), 29001, 29948));
    states_postcode.push(("SD".to_owned(), 57001, 57799));
    states_postcode.push(("TN".to_owned(), 37010, 38589));
    states_postcode.push(("TX".to_owned(), 75503, 79999));
    states_postcode.push(("UT".to_owned(), 84001, 84784));
    states_postcode.push(("VT".to_owned(), 5001, 5495));
    states_postcode.push(("VA".to_owned(), 22001, 24658));
    states_postcode.push(("WA".to_owned(), 98001, 99403));
    states_postcode.push(("WV".to_owned(), 24701, 26886));
    states_postcode.push(("WI".to_owned(), 53001, 54990));
    states_postcode.push(("WY".to_owned(), 82001, 83128));
    states_postcode.push(("AS".to_owned(), 96799, 96799));
    states_postcode.push(("GU".to_owned(), 96910, 96932));
    states_postcode.push(("MP".to_owned(), 96950, 96952));
    states_postcode.push(("PR".to_owned(), 600, 799));
    states_postcode.push(("VI".to_owned(), 801, 851));
    states_postcode.push(("FM".to_owned(), 96941, 96944));
    states_postcode.push(("MH".to_owned(), 96960, 96970));
    states_postcode.push(("PW".to_owned(), 96940, 96940));
    states_postcode.push(("AA".to_owned(), 34004, 34095));
    states_postcode.push(("AE".to_owned(), 9001, 9999));
    states_postcode.push(("AP".to_owned(), 96201, 96698));
    let address = AddressData {
        address_formats,
        building_number_formats,
        city_formats,
        city_prefixes: Some(city_prefixes),
        city_suffixes,
        countries,
        alpha_2_country_codes,
        alpha_3_country_codes,
        freely_associated_states_abbr: Some(freely_associated_states_abbr),
        military_apo_format: Some("PSC ####, Box ####".to_owned()),
        military_dpo_format: Some("Unit #### Box ####".to_owned()),
        military_ship_prefix: Some(military_ship_prefix),
        military_state_abbr: Some(military_state_abbr),
        postcode_formats,
        secondary_address_formats: Some(secondary_address_formats),
        states: Some(states),
        states_abbr: Some(states_abbr),
        states_postcode: Some(states_postcode),
        street_address_formats,
        street_name_formats,
        street_suffixes,
        territories_abbr: Some(territories_abbr),
    };
    Some(address)
}

/// The `en_US` company tables.
#[verifier::rlimit(100)]
#[verifier::spinoff_prover]
fn en_us_company() -> (r: Option<CompanyData>)
    ensures
        r is Some,
        r matches Some(x) ==> x.wf(),
{
    proof {
        lemma_template_24(); lemma_template_25(); lemma_template_26();
    }
    let company_formats_texts: &[&str] = &["{{last_name}} {{company_suffix}}", "{{last_name}}-{{last_name}}", "{{last_name}}, {{last_name}} and {{last_name}}"];
    let company_formats = templates(company_formats_texts, None)?;
    proof {
        lemma_group_below(company_formats, company_formats_texts@, 1);
    }
    let company_suffixes = uniform(&["Inc", "and Sons", "LLC", "Group", "PLC", "Ltd"]);
    let mut catch_phrase_words: Vec<Table<String>> = Vec::new();
    catch_phrase_words.push(uniform(&["Adaptive", "Advanced", "Ameliorated", "Assimilated", "Automated", "Balanced", "Business-focused", "Centralized", "Cloned", "Compatible", "Configurable", "Cross-platform", "Customer-focused", "Customizable", "Decentralized", "De-engineered", "Devolved", "Digitized", "Distributed", "Diverse", "Enhanced", "Ergonomic", "Exclusive", "Expanded", "Extended", "Face-to-face", "Focused", "Front-line", "Fully-configurable", "Function-based", "Fundamental", "Future-proofed", "Grass-roots", "Horizontal", "Implemented", "Innovative", "Integrated", "Intuitive", "Inverse", "Managed", "Mandatory", "Monitored", "Multi-channeled", "Multi-lateral", "Multi-layered", "Networked", "Object-based", "Open-architected", "Open-source", "Operative", "Optimized", "Optional", "Organic", "Organized", "Persevering", "Persistent", "Phased", "Polarized", "Pre-emptive", "Proactive", "Profit-focused", "Profound", "Programmable", "Progressive", "Public-key", "Quality-focused", "Reactive", "Realigned", "Re-contextualized", "Re-engineered", "Reduced", "Reverse-engineered", "Right-sized", "Robust", "Seamless", "Secured", "Self-enabling", "Sharable", "Stand-alone", "Streamlined", "Switchable", "Synchronized", "Synergistic", "Synergized", "Team-oriented", "Total", "Triple-buffered", "Universal", "Up-sized", "Upgradable", "User-centric", "User-friendly", "Versatile", "Virtual", "Visionary", "Vision-oriented"]));
    catch_phrase_words.push(uniform(&["24hour", "24/7", "3rdgeneration", "4thgeneration", "5thgeneration", "6thgeneration", "actuating", "analyzing", "asymmetric", "asynchronous", "attitude-oriented", "background", "bandwidth-monitored", "bi-directional", "bifurcated", "bottom-line", "clear-thinking", "client-driven", "client-server", "coherent", "cohesive", "composite", "context-sensitive", "contextually-based", "content-based", "dedicated", "demand-driven", "didactic", "directional", "discrete", "disintermediate", "dynamic", "eco-centric", "empowering", "encompassing", "even-keeled", "executive", "explicit", "exuding", "fault-tolerant", "foreground", "fresh-thinking", "full-range", "global-scale", "grid-enabled", "heuristic", "high-level", "holistic", "homogeneous", "human-resource", "hybrid", "impactful", "incremental", "intangible", "interactive", "intermediate", "leadingedge", "local", "logistical", "maximized", "methodical", "mission-critical", "mobile", "modular", "motivating", "multimedia", "multi-state", "multi-tasking", "national", "needs-based", "neutral", "next-generation", "non-volatile", "object-oriented", "optimal", "optimizing", "radical", "real-time", "reciprocal", "regional", "responsive", "scalable", "secondary", "solution-oriented", "stable", "static", "systematic", "systemic", "system-worthy", "tangible", "tertiary", "transitional", "uniform", "upward-trending", "user-facing", "value-added", "web-enabled", "well-modulated", "zero-administration", "zero-defect", "zero-tolerance"]));
    catch_phrase_words.push(uniform(&["ability", "access", "adapter", "algorithm", "alliance", "analyzer", "application", "approach", "architecture", "archive", "artificial-intelligence", "array", "attitude", "benchmark", "budgetary-management", "capability", "capacity", "challenge", "circuit", "collaboration", "complexity", "concept", "conglomeration", "contingency", "core", "customer-loyalty", "database", "data-warehouse", "definition", "emulation", "encoding", "encryption", "extranet", "firmware", "flexibility", "focus-group", "forecast", "frame", "framework", "function", "functionalities", "Graphic-Interface", "groupware", "Graphical-User-Interface", "hardware", "help-desk", "hierarchy", "hub", "implementation", "info-mediaries", "infrastructure", "initiative", "installation", "instruction-set", "interface", "internet-solution", "intranet", "knowledge-user", "knowledgebase", "Local-Area-Network", "leverage", "matrices", "matrix", "methodology", "middleware", "migration", "model", "moderator", "monitoring", "moratorium", "neural-net", "open-architecture", "open-system", "orchestration", "paradigm", "parallelism", "policy", "portal", "pricing-structure", "process-improvement", "product", "productivity", "project", "projection", "protocol", "secured-line", "service-desk", "software", "solution", "standardization", "strategy", "structure", "success", "superstructure", "support", "synergy", "system-engine", "task-force", "throughput", "time-frame", "toolset", "utilisation", "website", "workforce"]));
    let mut bs_words: Vec<Table<String>> = Vec::new();
    bs_words.push(uniform(&["implement", "utilize", "integrate", "streamline", "optimize", "evolve", "transform", "embrace", "enable", "orchestrate", "leverage", "reinvent", "aggregate", "architect", "enhance", "incentivize", "morph", "empower", "envisioneer", "monetize", "harness", "facilitate", "seize", "disintermediate", "synergize", "strategize", "deploy", "brand", "grow", "target", "syndicate", "synthesize", "deliver", "mesh", "incubate", "engage", "maximize", "benchmark", "expedite", "re-intermediate", "whiteboard", "visualize", "repurpose", "innovate", "scale", "unleash", "drive", "extend", "engineer", "revolutionize", "generate", "exploit", "transition", "e-enable", "iterate", "cultivate", "matrix", "productize", "redefine", "recontextualize"]));
    bs_words.push(uniform(&["clicks-and-mortar", "value-added", "vertical", "proactive", "robust", "revolutionary", "scalable", "leading-edge", "innovative", "intuitive", "strategic", "e-business", "mission-critical", "sticky", "one-to-one", "24/7", "end-to-end", "global", "B2B", "B2C", "granular", "frictionless", "virtual", "viral", "dynamic", "24/365", "best-of-breed", "killer", "magnetic", "bleeding-edge", "web-enabled", "interactive", "dot-com", "sexy", "back-end", "real-time", "efficient", "front-end", "distributed", "seamless", "extensible", "turn-key", "world-class", "open-source", "cross-platform", "cross-media", "synergistic", "bricks-and-clicks", "out-of-the-box", "enterprise", "integrated", "impactful", "wireless", "transparent", "next-generation", "cutting-edge", "user-centric", "visionary", "customized", "ubiquitous", "plug-and-play", "collaborative", "compelling", "holistic", "rich"]));
    bs_words.push(uniform(&["synergies", "paradigms", "markets", "partnerships", "infrastructures", "platforms", "initiatives", "channels", "eyeballs", "communities", "ROI", "solutions", "action-items", "portals", "niches", "technologies", "content", "supply-chains", "convergence", "relationships", "architectures", "interfaces", "e-markets", "e-commerce", "systems", "bandwidth", "models", "mindshare", "deliverables", "users", "schemas", "networks", "applications", "metrics", "e-business", "functionalities", "experiences", "web-services", "methodologies", "blockchains", "lifetime-value"]));
    let company = CompanyData {
        formats: company_formats,
        company_suffixes,
        catch_phrase_words,
        bs_words,
    };
    Some(company)
}

/// The `en_US` internet tables.
#[verifier::rlimit(100)]
#[verifier::spinoff_prover]
fn en_us_internet() -> (r: Option<InternetData>)
    ensures
        r is Some,
        r matches Some(x) ==> x.wf() && views(x.safe_domain_names.items@) == en_us_safe_domains() && views(
            x.free_email_domains.items@,
        ) == en_us_free_email_domains(),
{
    proof {
        lemma_template_27(); lemma_template_28();
    }
    let email_formats_texts: &[&str] = &["{{user_name}}@{{domain_name}}", "{{user_name}}@{{free_email_domain}}"];
    let email_formats = templates(email_formats_texts, None)?;
    proof {
        lemma_group_below(email_formats, email_formats_texts@, 3);
    }
    let free_email_domains = uniform(&["gmail.com", "yahoo.com", "hotmail.com"]);
    let hostname_prefixes = uniform(&["db", "srv", "desktop", "laptop", "lt", "email", "web"]);
    let mut http_assigned_codes: Vec<u32> = Vec::new();
    http_assigned_codes.push(100);
    http_assigned_codes.push(101);
    http_assigned_codes.push(102);
    http_assigned_codes.push(103);
    http_assigned_codes.push(200);
    http_assigned_codes.push(201);
    http_assigned_codes.push(202);
    http_assigned_codes.push(203);
    http_assigned_codes.push(204);
    http_assigned_codes.push(205);
    http_assigned_codes.push(206);
    http_assigned_codes.push(207);
    http_assigned_codes.push(208);
    http_assigned_codes.push(226);
    http_assigned_codes.push(300);
    http_assigned_codes.push(301);
    http_assigned_codes.push(302);
    http_assigned_codes.push(303);
    http_assigned_codes.push(304);
    http_assigned_codes.push(305);
    http_assigned_codes.push(307);
    http_assigned_codes.push(308);
    http_assigned_codes.push(400);
    http_assigned_codes.push(401);
    http_assigned_codes.push(402);
    http_assigned_codes.push(403);
    http_assigned_codes.push(404);
    http_assigned_codes.push(405);
    http_assigned_codes.push(406);
    http_assigned_codes.push(407);
    http_assigned_codes.push(408);
    http_assigned_codes.push(409);
    http_assigned_codes.push(410);
    http_assigned_codes.push(411);
    http_assigned_codes.push(412);
    http_assigned_codes.push(413);
    http_assigned_codes.push(414);
    http_assigned_codes.push(415);
    http_assigned_codes.push(416);
    http_assigned_codes.push(417);
    http_assigned_codes.push(421);
    http_assigned_codes.push(422);
    http_assigned_codes.push(423);
    http_assigned_codes.push(424);
    http_assigned_codes.push(425);
    http_assigned_codes.push(426);
    http_assigned_codes.push(428);
    http_assigned_codes.push(429);
    http_assigned_codes.push(431);
    http_assigned_codes.push(451);
    http_assigned_codes.push(500);
    http_assigned_codes.push(501);
    http_assigned_codes.push(502);
    http_assigned_codes.push(503);
    http_assigned_codes.push(504);
    http_assigned_codes.push(505);
    http_assigned_codes.push(506);
    http_assigned_codes.push(507);
    http_assigned_codes.push(508);
    http_assigned_codes.push(510);
    http_assigned_codes.push(511);
    let http_methods = uniform(&["GET", "HEAD", "POST", "PUT", "DELETE", "CONNECT", "OPTIONS", "TRACE", "PATCH"]);
    let image_placeholder_services = uniform(&["https://picsum.photos/{width}/{height}", "https://dummyimage.com/{width}x{height}", "https://placekitten.com/{width}/{height}"]);
    let safe_domain_names = uniform(&["example.com", "example.net", "example.org"]);
    let tlds = uniform(&["com", "com", "com", "com", "com", "com", "biz", "info", "net", "org"]);
    let uri_extensions = uniform(&[".html", ".html", ".html", ".htm", ".htm", ".php", ".php", ".jsp", ".asp"]);
    let uri_pages = uniform(&["index", "home", "search", "main", "post", "homepage", "category", "register", "login", "faq", "about", "terms", "privacy", "author"]);
    let uri_paths = uniform(&["app", "main", "wp-content", "search", "category", "tag", "categories", "tags", "blog", "posts", "list", "explore"]);
    proof {
        lemma_template_29(); lemma_template_30();
    }
    let url_formats_texts: &[&str] = &["www.{{domain_name}}/", "{{domain_name}}/"];
    let url_formats = templates(url_formats_texts, None)?;
    proof {
        lemma_group_below(url_formats, url_formats_texts@, 3);
    }
    proof {
        lemma_template_31(); lemma_template_32(); lemma_template_33(); lemma_template_34();
    }
    let user_name_formats_texts: &[&str] = &["{{last_name}}.{{first_name}}", "{{first_name}}.{{last_name}}", "{{first_name}}##", "?{{last_name}}"];
    let user_name_formats = templates(user_name_formats_texts, None)?;
    proof {
        lemma_group_below(user_name_formats, user_name_formats_texts@, 1);
    }
    let internet = InternetData {
        email_formats,
        free_email_domains,
        hostname_prefixes,
        http_assigned_codes,
        http_methods,
        image_placeholder_services,
        safe_domain_names,
        tlds,
        uri_extensions,
        uri_pages,
        uri_paths,
        url_formats,
        user_name_formats,
    };
    Some(internet)
}

/// The `en_US` phone number tables.
#[verifier::rlimit(100)]
#[verifier::spinoff_prover]
fn en_us_phone_number() -> (r: Option<PhoneNumberData>)
    ensures
        r is Some,
        r matches Some(x) ==> x.wf(),
{
    proof {
        lemma_template_35(); lemma_template_36(); lemma_template_37();
    }
    let basic_formats_texts: &[&str] = &["###-###-####", "(###)###-####", "###.###.####", "###-###-####", "###.###.####"];
    let basic_formats = templates(basic_formats_texts, None)?;
    proof {
        lemma_group_below(basic_formats, basic_formats_texts@, 3);
    }
    let country_calling_codes = uniform(&["+1", "+7", "+20", "+27", "+30", "+31", "+32", "+33", "+34", "+36", "+39", "+40", "+41", "+43", "+44", "+45", "+46", "+47", "+48", "+49", "+51", "+52", "+54", "+55", "+56", "+57", "+61", "+62", "+63", "+64", "+65", "+66", "+81", "+82", "+84", "+86", "+90", "+91", "+92", "+98"]);
    let phone_formats = uniform(&["###-###-####", "(###)###-####", "###.###.####", "###-###-####x###", "(###)###-####x###", "###.###.####x###", "+1-###-###-####", "001-###-###-####", "###-###-####x####", "(###)###-####x####", "###.###.####x####", "+1-###-###-####x###", "001-###-###-####x###"]);
    let msisdn_formats = uniform(&["#############"]);
    let phone_number = PhoneNumberData {
        basic_formats: Some(basic_formats),
        country_calling_codes,
        formats: phone_formats,
        msisdn_formats,
    };
    Some(phone_number)
}

/// The `en_US` lorem tables.
#[verifier::rlimit(100)]
fn en_us_lorem() -> (r: LoremData)
    ensures
        r.wf(),
        en_us_lorem_contents(r),
{
    let word_list = en_us_lorem_words();
    let mut parts_of_speech: Vec<(String, Vec<String>)> = Vec::new();
    parts_of_speech.push(("verb".to_owned(), strings(&["be", "have", "do", "say", "get", "make", "go", "know", "take", "see", "come", "think", "look", "want", "give", "use", "find", "tell", "ask", "work", "seem", "feel", "try", "leave", "call", "keep", "provide", "hold", "turn", "follow", "begin", "bring", "like", "going", "help", "start", "run", "write", "set", "move", "play", "pay", "hear", "include", "believe", "allow", "meet", "lead", "live", "stand", "happen", "carry", "talk", "appear", "produce", "sit", "offer", "consider", "expect", "suggest", "let", "read", "require", "continue", "lose", "add", "change", "fall", "remain", "remember", "buy", "speak", "stop", "send", "receive", "decide", "win", "understand", "describe", "develop", "agree", "open", "reach", "build", "involve", "spend", "return", "draw", "die", "hope", "create", "walk", "sell", "wait", "cause", "pass", "lie", "accept", "watch", "raise", "base", "apply", "break", "explain", "learn", "increase", "cover", "grow", "claim", "report", "support", "cut", "form", "stay", "contain", "reduce", "establish", "join", "wish", "achieve", "seek", "choose", "deal", "face", "fail", "serve", "end", "kill", "occur", "drive", "represent", "rise", "discuss", "love", "pick", "place", "argue", "prove", "wear", "catch", "enjoy", "eat", "introduce", "enter", "present", "arrive", "ensure", "point", "plan", "pull", "refer", "act", "relate", "affect", "close", "identify", "manage", "thank", "compare", "announce", "obtain", "note", "forget", "indicate", "wonder", "maintain", "publish", "suffer", "avoid", "express", "suppose", "finish", "determine", "design", "listen", "save", "tend", "treat", "control", "share", "remove", "throw", "visit", "exist", "encourage", "force", "reflect", "admit", "assume", "smile", "prepare", "replace", "fill", "improve", "mention", "fight", "intend", "miss", "discover", "drop", "hit", "push", "prevent", "refuse", "regard", "lay", "reveal", "teach", "answer", "operate", "state", "depend", "enable", "record", "check", "complete", "cost", "sound", "laugh", "realise", "extend", "arise", "notice", "define", "examine", "fit", "study", "bear", "hang", "recognise", "shake", "sign", "attend", "fly", "gain", "result", "travel", "adopt", "confirm", "protect", "demand", "stare", "imagine", "attempt", "beat", "born", "associate", "care", "marry", "collect", "voice", "employ", "issue", "release", "emerge", "mind", "aim", "deny", "mark", "shoot", "appoint", "order", "supply", "drink", "observe", "reply", "ignore", "link", "propose", "ring", "settle", "strike", "press", "respond", "arrange", "survive", "concentrate", "lift", "approach", "cross", "test", "charge", "experience", "touch", "acquire", "commit", "demonstrate", "grant", "prefer", "repeat", "sleep", "threaten", "feed", "insist", "launch", "limit", "promote", "deliver", "measure", "own", "retain", "attract", "belong", "consist", "contribute", "hide", "promise", "reject", "cry", "impose", "invite", "sing", "vary", "warn", "address", "declare", "destroy", "worry", "divide", "head", "name", "stick", "nod", "recognize", "train", "attack", "clear", "combine", "handle", "influence", "realize", "recommend", "shout", "spread", "undertake", "account", "select", "climb", "contact", "recall", "secure", "step", "transfer", "welcome", "conclude", "disappear", "display", "dress", "illustrate", "imply", "organise", "direct", "escape", "generate", "investigate", "remind", "advise", "afford", "earn", "hand", "inform", "rely", "succeed", "approve", "burn", "fear", "vote", "conduct", "cope", "derive", "elect", "gather", "jump", "last", "match", "matter", "persuade", "ride", "shut", "blow", "estimate", "recover", "score", "slip", "count", "hate", "attach", "exercise", "house", "lean", "roll", "wash", "accompany", "accuse", "bind", "explore", "judge", "rest", "steal", "comment", "exclude", "focus", "hurt", "stretch", "withdraw", "back", "fix", "justify", "knock", "pursue", "switch", "appreciate", "benefit", "lack", "list", "occupy", "permit", "surround", "abandon", "blame", "complain", "connect", "construct", "dominate", "engage", "paint", "quote", "view", "acknowledge", "dismiss", "incorporate", "interpret", "proceed", "search", "separate", "stress", "alter", "analyse", "arrest", "bother", "defend", "expand", "implement", "possess", "review", "suit", "tie", "assist", "calculate", "glance", "mix", "question", "resolve", "rule", "suspect", "wake", "appeal", "challenge", "clean", "damage", "guess", "reckon", "restore", "restrict", "specify", "constitute", "convert", "distinguish", "submit", "trust", "urge", "feature", "land", "locate", "predict", "preserve", "solve", "sort", "struggle", "cast", "cook", "dance", "invest", "lock", "owe", "pour", "shift", "kick", "kiss", "light", "purchase", "race", "retire"])));
    parts_of_speech.push(("noun".to_owned(), strings(&["people", "history", "way", "art", "world", "information", "map", "family", "government", "health", "system", "computer", "meat", "year", "thanks", "music", "person", "reading", "method", "data", "food", "understanding", "theory", "law", "bird", "literature", "problem", "software", "control", "knowledge", "power", "ability", "economics", "love", "internet", "television", "science", "library", "nature", "fact", "product", "idea", "temperature", "investment", "area", "society", "activity", "story", "industry", "media", "thing", "oven", "community", "definition", "safety", "quality", "development", "language", "management", "player", "variety", "video", "week", "security", "country", "exam", "movie", "organization", "equipment", "physics", "analysis", "policy", "series", "thought", "basis", "boyfriend", "direction", "strategy", "technology", "army", "camera", "freedom", "paper", "environment", "child", "instance", "month", "truth", "marketing", "university", "writing", "article", "department", "difference", "goal", "news", "audience", "fishing", "growth", "income", "marriage", "user", "combination", "failure", "meaning", "medicine", "philosophy", "teacher", "communication", "night", "chemistry", "disease", "disk", "energy", "nation", "road", "role", "soup", "advertising", "location", "success", "addition", "apartment", "education", "math", "moment", "painting", "politics", "attention", "decision", "event", "property", "shopping", "student", "wood", "competition", "distribution", "entertainment", "office", "population", "president", "unit", "category", "cigarette", "context", "introduction", "opportunity", "performance", "driver", "flight", "length", "magazine", "newspaper", "relationship", "teaching", "cell", "dealer", "finding", "lake", "member", "message", "phone", "scene", "appearance", "association", "concept", "customer", "death", "discussion", "housing", "inflation", "insurance", "mood", "woman", "advice", "blood", "effort", "expression", "importance", "opinion", "payment", "reality", "responsibility", "situation", "skill", "statement", "wealth", "application", "city", "county", "depth", "estate", "foundation", "grandmother", "heart", "perspective", "photo", "recipe", "studio", "topic", "collection", "depression", "imagination", "passion", "percentage", "resource", "setting", "ad", "agency", "college", "connection", "criticism", "debt", "description", "memory", "patience", "secretary", "solution", "administration", "aspect", "attitude", "director", "personality", "psychology", "recommendation", "response", "selection", "storage", "version", "alcohol", "argument", "complaint", "contract", "emphasis", "highway", "loss", "membership", "possession", "preparation", "steak", "union", "agreement", "cancer", "currency", "employment", "engineering", "entry", "interaction", "mixture", "preference", "region", "republic", "tradition", "virus", "actor", "classroom", "delivery", "device", "difficulty", "drama", "election", "engine", "football", "guidance", "hotel", "owner", "priority", "protection", "suggestion", "tension", "variation", "anxiety", "atmosphere", "awareness", "bath", "bread", "candidate", "climate", "comparison", "confusion", "construction", "elevator", "emotion", "employee", "employer", "guest", "height", "leadership", "mall", "manager", "operation", "recording", "sample", "transportation", "charity", "cousin", "disaster", "editor", "efficiency", "excitement", "extent", "feedback", "guitar", "homework", "leader", "mom", "outcome", "permission", "presentation", "promotion", "reflection", "refrigerator", "resolution", "revenue", "session", "singer", "tennis", "basket", "bonus", "cabinet", "childhood", "church", "clothes", "coffee", "dinner", "drawing", "hair", "hearing", "initiative", "judgment", "lab", "measurement", "mode", "mud", "orange", "poetry", "police", "possibility", "procedure", "queen", "ratio", "relation", "restaurant", "satisfaction", "sector", "signature", "significance", "song", "tooth", "town", "vehicle", "volume", "wife", "accident", "airport", "appointment", "arrival", "assumption", "baseball", "chapter", "committee", "conversation", "database", "enthusiasm", "error", "explanation", "farmer", "gate", "girl", "hall", "historian", "hospital", "injury", "instruction", "maintenance", "manufacturer", "meal", "perception", "pie", "poem", "presence", "proposal", "reception", "replacement", "revolution", "river", "son", "speech", "tea", "village", "warning", "winner", "worker", "writer", "assistance", "breath", "buyer", "chest", "chocolate", "conclusion", "contribution", "cookie", "courage", "dad", "desk", "drawer", "establishment", "examination", "garbage", "grocery", "honey", "impression", "improvement", "independence", "insect", "inspection", "inspector", "king", "ladder", "menu", "penalty", "piano", "potato", "profession", "professor", "quantity", "reaction", "requirement", "salad", "sister", "supermarket", "tongue", "weakness", "wedding", "affair", "ambition", "analyst", "apple", "assignment", "assistant", "bathroom", "bedroom", "beer", "birthday", "celebration", "championship", "cheek", "client", "consequence", "departure", "diamond", "dirt", "ear", "fortune", "friendship", "funeral", "gene", "girlfriend", "hat", "indication", "intention", "lady", "midnight", "negotiation", "obligation", "passenger", "pizza", "platform", "poet", "pollution", "recognition", "reputation", "shirt", "sir", "speaker", "stranger", "surgery", "sympathy", "tale", "throat", "trainer", "uncle", "youth"])));
    parts_of_speech.push(("adverb".to_owned(), strings(&["not", "also", "very", "often", "however", "too", "usually", "really", "early", "never", "always", "sometimes", "together", "likely", "simply", "generally", "instead", "actually", "again", "rather", "almost", "especially", "ever", "quickly", "probably", "already", "below", "directly", "therefore", "else", "thus", "easily", "eventually", "exactly", "certainly", "normally", "currently", "extremely", "finally", "constantly", "properly", "soon", "specifically", "ahead", "daily", "highly", "immediately", "relatively", "slowly", "fairly", "primarily", "completely", "ultimately", "widely", "recently", "seriously", "frequently", "fully", "mostly", "naturally", "nearly", "occasionally", "carefully", "clearly", "essentially", "possibly", "slightly", "somewhat", "equally", "greatly", "necessarily", "personally", "rarely", "regularly", "similarly", "basically", "closely", "effectively", "initially", "literally", "mainly", "merely", "gently", "hopefully", "originally", "roughly", "significantly", "totally", "twice", "elsewhere", "everywhere", "obviously", "perfectly", "physically", "successfully", "suddenly", "truly", "virtually", "altogether", "anyway", "automatically", "deeply", "definitely", "deliberately", "hardly", "readily", "terribly", "unfortunately", "forth", "briefly", "moreover", "strongly", "honestly", "previously"])));
    parts_of_speech.push(("adjective".to_owned(), strings(&["different", "used", "important", "every", "large", "available", "popular", "able", "basic", "known", "various", "difficult", "several", "united", "historical", "hot", "useful", "mental", "scared", "additional", "emotional", "old", "political", "similar", "healthy", "financial", "medical", "traditional", "federal", "entire", "strong", "actual", "significant", "successful", "electrical", "expensive", "pregnant", "intelligent", "interesting", "poor", "happy", "responsible", "cute", "helpful", "recent", "willing", "nice", "wonderful", "impossible", "serious", "huge", "rare", "technical", "typical", "competitive", "critical", "electronic", "immediate", "aware", "educational", "environmental", "global", "legal", "relevant", "accurate", "capable", "dangerous", "dramatic", "efficient", "powerful", "foreign", "hungry", "practical", "psychological", "severe", "suitable", "numerous", "sufficient", "unusual", "consistent", "cultural", "existing", "famous", "pure", "afraid", "obvious", "careful", "latter", "unhappy", "acceptable", "aggressive", "boring", "distinct", "eastern", "logical", "reasonable", "strict", "administrative", "automatic", "civil", "former", "massive", "southern", "unfair", "visible", "alive", "angry", "desperate", "exciting", "friendly", "lucky", "realistic", "sorry", "ugly", "unlikely", "anxious", "comprehensive", "curious", "impressive", "informal", "inner", "pleasant", "sexual", "sudden", "terrible", "unable", "weak", "wooden", "asleep", "confident", "conscious", "decent", "embarrassed", "guilty", "lonely", "mad", "nervous", "odd", "remarkable", "substantial", "suspicious", "tall", "tiny", "more", "some", "one", "all", "many", "most", "other", "such", "even", "new", "just", "good", "any", "each", "much", "own", "great", "another", "same", "few", "free", "right", "still", "best", "public", "human", "both", "local", "sure", "better", "general", "specific", "enough", "long", "small", "less", "high", "certain", "little", "common", "next", "simple", "hard", "past", "big", "possible", "particular", "real", "major", "personal", "current", "left", "national", "least", "natural", "physical", "short", "last", "single", "individual", "main", "potential", "professional", "international", "lower", "open", "according", "alternative", "special", "working", "true", "whole", "clear", "dry", "easy", "cold", "commercial", "full", "low", "primary", "worth", "necessary", "positive", "present", "close", "creative", "green", "late", "fit", "glad", "proper", "complex", "content", "due", "effective", "middle", "regular", "fast", "independent", "original", "wide", "beautiful", "complete", "active", "negative", "safe", "visual", "wrong", "ago", "quick", "ready", "straight", "white", "direct", "excellent", "extra", "junior", "pretty", "unique", "classic", "final", "overall", "private", "separate", "western", "alone", "familiar", "official", "perfect", "bright", "broad", "comfortable", "flat", "rich", "warm", "young", "heavy", "valuable", "correct", "leading", "slow", "clean", "fresh", "normal", "secret", "tough", "brown", "cheap", "deep", "objective", "secure", "thin", "chemical", "cool", "extreme", "exact", "fair", "fine", "formal", "opposite", "remote", "total", "vast", "lost", "smooth", "dark", "double", "equal", "firm", "frequent", "internal", "sensitive", "constant", "minor", "previous", "raw", "soft", "solid", "weird", "amazing", "very"])));
    assert(part_names(parts_of_speech@) =~= en_us_parts_of_speech());
    let lorem = LoremData {
        parts_of_speech: Some(parts_of_speech),
        sentence_punctuation: ".".to_owned(),
        word_connector: " ".to_owned(),
        word_list,
    };
    lorem
}

/// The `en_US` date time tables.
#[verifier::rlimit(100)]
fn en_us_date_time() -> (r: DateTimeData)
    ensures
        r.wf(),
{
    let centuries = uniform(&["I", "II", "III", "IV", "V", "VI", "VII", "VIII", "IX", "X", "XI", "XII", "XIII", "XIV", "XV", "XVI", "XVII", "XVIII", "XIX", "XX", "XXI"]);
    let mut dt_countries: Vec<Country> = Vec::new();
    dt_countries.push(country("United States", "US", "USA", "North America", "Washington, D.C.", &["America/New_York", "America/Chicago", "America/Denver", "America/Los_Angeles", "America/Anchorage", "Pacific/Honolulu"]));
    dt_countries.push(country("Canada", "CA", "CAN", "North America", "Ottawa", &["America/Toronto", "America/Vancouver", "America/Winnipeg", "America/Halifax"]));
    dt_countries.push(country("Mexico", "MX", "MEX", "North America", "Mexico City", &["America/Mexico_City", "America/Tijuana"]));
    dt_countries.push(country("Brazil", "BR", "BRA", "South America", "Brasilia", &["America/Sao_Paulo", "America/Manaus"]));
    dt_countries.push(country("Argentina", "AR", "ARG", "South America", "Buenos Aires", &["America/Argentina/Buenos_Aires"]));
    dt_countries.push(country("United Kingdom", "GB", "GBR", "Europe", "London", &["Europe/London"]));
    dt_countries.push(country("France", "FR", "FRA", "Europe", "Paris", &["Europe/Paris"]));
    dt_countries.push(country("Germany", "DE", "DEU", "Europe", "Berlin", &["Europe/Berlin"]));
    dt_countries.push(country("Italy", "IT", "ITA", "Europe", "Rome", &["Europe/Rome"]));
    dt_countries.push(country("Spain", "ES", "ESP", "Europe", "Madrid", &["Europe/Madrid", "Atlantic/Canary"]));
    dt_countries.push(country("Japan", "JP", "JPN", "Asia", "Tokyo", &["Asia/Tokyo"]));
    dt_countries.push(country("China", "CN", "CHN", "Asia", "Beijing", &["Asia/Shanghai"]));
    dt_countries.push(country("India", "IN", "IND", "Asia", "New Delhi", &["Asia/Kolkata"]));
    dt_countries.push(country("Australia", "AU", "AUS", "Oceania", "Canberra", &["Australia/Sydney", "Australia/Perth", "Australia/Brisbane"]));
    dt_countries.push(country("New Zealand", "NZ", "NZL", "Oceania", "Wellington", &["Pacific/Auckland"]));
    dt_countries.push(country("Egypt", "EG", "EGY", "Africa", "Cairo", &["Africa/Cairo"]));
    dt_countries.push(country("Kenya", "KE", "KEN", "Africa", "Nairobi", &["Africa/Nairobi"]));
    dt_countries.push(country("South Africa", "ZA", "ZAF", "Africa", "Pretoria", &["Africa/Johannesburg"]));
    let date_time = DateTimeData { centuries, countries: dt_countries };
    date_time
}

/// The `en_US` base tables.
#[verifier::rlimit(100)]
fn en_us_base() -> (r: BaseData)
    ensures
        r.wf(),
{
    let mut language_locale_codes: Vec<(String, Vec<String>)> = Vec::new();
    language_locale_codes.push(("ar".to_owned(), strings(&["AE", "BH", "DZ", "EG", "JO", "SA"])));
    language_locale_codes.push(("de".to_owned(), strings(&["AT", "BE", "CH", "DE", "LU"])));
    language_locale_codes.push(("en".to_owned(), strings(&["AU", "CA", "GB", "IE", "IN", "NZ", "US", "ZA"])));
    language_locale_codes.push(("es".to_owned(), strings(&["AR", "CL", "CO", "ES", "MX", "PE", "US"])));
    language_locale_codes.push(("fr".to_owned(), strings(&["BE", "CA", "CH", "FR", "LU"])));
    language_locale_codes.push(("hi".to_owned(), strings(&["IN"])));
    language_locale_codes.push(("it".to_owned(), strings(&["CH", "IT"])));
    language_locale_codes.push(("ja".to_owned(), strings(&["JP"])));
    language_locale_codes.push(("ko".to_owned(), strings(&["KR"])));
    language_locale_codes.push(("nl".to_owned(), strings(&["BE", "NL"])));
    language_locale_codes.push(("pl".to_owned(), strings(&["PL"])));
    language_locale_codes.push(("pt".to_owned(), strings(&["BR", "PT"])));
    language_locale_codes.push(("ru".to_owned(), strings(&["RU", "UA"])));
    language_locale_codes.push(("sv".to_owned(), strings(&["FI", "SE"])));
    language_locale_codes.push(("tr".to_owned(), strings(&["CY", "TR"])));
    language_locale_codes.push(("zh".to_owned(), strings(&["CN", "HK", "SG", "TW"])));
    let base = BaseData { language_locale_codes };
    base
}

/// The `en_US` locale. Every one of its templates names known formatters, so it is
/// always there.
pub fn en_us() -> (l: Option<Locale>)
    ensures
        l is Some,
        l matches Some(locale) ==> locale.id == LocaleId::EnUs && locale.code@ == "en_US"@ && locale.wf()
            && en_us_contents(locale),
{
    let person = en_us_person()?;
    let address = en_us_address()?;
    let company = en_us_company()?;
    let internet = en_us_internet()?;
    let phone_number = en_us_phone_number()?;
    let lorem = en_us_lorem();
    let date_time = en_us_date_time();
    let base = en_us_base();
    Some(Locale {
        id: LocaleId::EnUs,
        code: "en_US".to_owned(),
        base,
        person,
        address,
        company,
        internet,
        phone_number,
        lorem,
        date_time,
    })
}

} // verus!
