use crate::db::decimal::Decimal;
use crate::db::Address;
use vstd::hash_map::StringHashMap;
use vstd::prelude::*;

verus! {

/// The token list published by the asset registry.
pub struct Manifest {
    pub name: String,
    pub tokens: Vec<Token>,
}

/// A fungible token that prices are given in.
pub struct Token {
    pub chain_id: usize,
    pub address: Address,
    pub name: String,
    pub symbol: String,
    pub vendor: Option<String>,
    pub logo_uri: String,
    pub decimals: usize,
    pub verified: bool,
}

/// The map from address to token that a list of tokens gives when each token is entered in
/// turn, a later token replacing an earlier one with the same address.
pub open spec fn tokens_by_address(tokens: Seq<Token>) -> Map<Seq<char>, Token>
    decreases tokens.len(),
{
    if tokens.len() == 0 {
        Map::empty()
    } else {
        tokens_by_address(tokens.drop_last()).insert(tokens.last().address@, tokens.last())
    }
}

/// The texts of a list of strings.
pub open spec fn texts_of(keys: Seq<String>) -> Seq<Seq<char>> {
    keys.map_values(|k: String| k@)
}

/// The addresses of a list of tokens, in order.
pub open spec fn addresses_of(tokens: Seq<Token>) -> Seq<Seq<char>> {
    tokens.map_values(|t: Token| t.address@)
}

/// The dictionary built from a list of tokens holds exactly the addresses of the list, so the
/// list of its addresses is as long as the number of distinct addresses in the list.
pub proof fn lemma_dictionary_addresses(tokens: Seq<Token>)
    ensures
        tokens_by_address(tokens).dom() == addresses_of(tokens).to_set(),
        tokens_by_address(tokens).dom().len() == addresses_of(tokens).to_set().len(),
    decreases tokens.len(),
{
    if tokens.len() > 0 {
        let rest = tokens.drop_last();
        lemma_dictionary_addresses(rest);
        assert(addresses_of(tokens) =~= addresses_of(rest).push(tokens.last().address@));
        assert(addresses_of(tokens).to_set() =~= addresses_of(rest).to_set().insert(tokens.last().address@)) by {
            assert forall|k: Seq<char>| #[trigger] addresses_of(tokens).to_set().contains(k)
                <==> addresses_of(rest).to_set().insert(tokens.last().address@).contains(k) by {
                if addresses_of(tokens).contains(k) {
                    let i = choose|i: int| 0 <= i < addresses_of(tokens).len() && addresses_of(tokens)[i] == k;
                    if i < rest.len() {
                        assert(addresses_of(rest)[i] == k);
                    }
                }
                if addresses_of(rest).contains(k) {
                    let i = choose|i: int| 0 <= i < addresses_of(rest).len() && addresses_of(rest)[i] == k;
                    assert(addresses_of(tokens)[i] == k);
                }
                if k == tokens.last().address@ {
                    assert(addresses_of(tokens)[tokens.len() - 1] == k);
                }
            }
        }
    } else {
        assert(addresses_of(tokens).to_set() =~= Set::empty());
    }
}

/// The tokens known to the API, by address.
pub struct TokenDict {
    map: StringHashMap<Token>,
    keys: Vec<Address>,
}

impl View for TokenDict {
    type V = Map<Seq<char>, Token>;

    closed spec fn view(&self) -> Map<Seq<char>, Token> {
        self.map@
    }
}

/// No two addresses in the list are the same text.
pub open spec fn distinct_texts(keys: Seq<String>) -> bool {
    forall|i: int, j: int| 0 <= i < keys.len() && 0 <= j < keys.len() && i != j ==> keys[i]@ != keys[j]@
}

impl TokenDict {
    /// The addresses kept beside the map list its keys, each once.
    #[verifier::type_invariant]
    closed spec fn keys_match(self) -> bool {
        &&& distinct_texts(self.keys@)
        &&& forall|i: int| 0 <= i < self.keys@.len() ==> self.map@.contains_key(#[trigger] self.keys@[i]@)
        &&& forall|k: Seq<char>| self.map@.contains_key(k) ==> exists|i: int| 0 <= i < self.keys@.len() && #[trigger] self.keys@[i]@ == k
    }

    /// Builds the dictionary; where two tokens share an address the later one is kept.
    pub fn new(tokens: Vec<Token>) -> (res: TokenDict)
        ensures
            res@ == tokens_by_address(tokens@),
    {
        let ghost all = tokens@;
        let mut map: StringHashMap<Token> = StringHashMap::new();
        let mut keys: Vec<Address> = Vec::new();
        for token in it: tokens
            invariant
                it.seq() == all,
                map@ == tokens_by_address(all.take(it.index() as int)),
                distinct_texts(keys@),
                forall|i: int| 0 <= i < keys@.len() ==> map@.contains_key(#[trigger] keys@[i]@),
                forall|k: Seq<char>| map@.contains_key(k) ==> exists|i: int| 0 <= i < keys@.len() && #[trigger] keys@[i]@ == k,
        {
            let ghost idx = it.index() as int;
            proof {
                assert(all.take(idx + 1).drop_last() =~= all.take(idx));
            }
            if !map.contains_key(token.address.as_str()) {
                let ghost old_keys = keys@;
                keys.push(token.address.clone());
                proof {
                    assert(keys@.last()@ == token.address@);
                    assert forall|k: Seq<char>| map@.insert(token.address@, token).contains_key(k) implies exists|i: int| 0 <= i < keys@.len() && #[trigger] keys@[i]@ == k by {
                        if k == token.address@ {
                            assert(keys@[keys@.len() - 1]@ == k);
                        } else {
                            let i = choose|i: int| 0 <= i < old_keys.len() && #[trigger] old_keys[i]@ == k;
                            assert(keys@[i]@ == k);
                        }
                    }
                }
            }
            map.insert(token.address.clone(), token);
        }
        proof {
            assert(all.take(all.len() as int) =~= all);
        }
        TokenDict { map, keys }
    }

    /// The token with the given address, if the dictionary holds one.
    pub fn get(&self, token: &String) -> (res: Option<&Token>)
        ensures
            match res {
                Some(t) => self@.contains_key(token@) && *t == self@[token@],
                None => !self@.contains_key(token@),
            },
    {
        self.map.get(token.as_str())
    }

    /// The addresses of all tokens in the dictionary, each once, in no promised order.
    pub fn addresses(&self) -> (res: Vec<String>)
        ensures
            distinct_texts(res@),
            forall|i: int| 0 <= i < res@.len() ==> self@.contains_key(#[trigger] res@[i]@),
            forall|k: Seq<char>| self@.contains_key(k) ==> exists|i: int| 0 <= i < res@.len() && #[trigger] res@[i]@ == k,
            res@.len() == self@.dom().len(),
    {
        proof {
            use_type_invariant(self);
        }
        let mut res: Vec<String> = Vec::new();
        let n = self.keys.len();
        for i in 0..n
            invariant
                n == self.keys@.len(),
                res@.len() == i,
                forall|j: int| 0 <= j < i ==> #[trigger] res@[j]@ == self.keys@[j]@,
        {
            res.push(self.keys[i].clone());
        }
        proof {
            assert forall|k: Seq<char>| self@.contains_key(k) implies exists|i: int| 0 <= i < res@.len() && #[trigger] res@[i]@ == k by {
                let i = choose|i: int| 0 <= i < self.keys@.len() && #[trigger] self.keys@[i]@ == k;
                assert(res@[i]@ == k);
            }
            let texts = texts_of(res@);
            assert(texts.no_duplicates());
            texts.unique_seq_to_set();
            assert forall|k: Seq<char>| texts.to_set().contains(k) <==> self@.dom().contains(k) by {
                if self@.dom().contains(k) {
                    let i = choose|i: int| 0 <= i < res@.len() && #[trigger] res@[i]@ == k;
                    assert(texts[i] == k);
                }
                if texts.contains(k) {
                    let i = choose|i: int| 0 <= i < texts.len() && texts[i] == k;
                    assert(res@[i]@ == k);
                }
            }
            assert(texts.to_set() =~= self@.dom());
        }
        res
    }

    /// Prints an amount of a token. Amounts are printed rounded to an integer, whatever
    /// the token.
    pub fn format_value(&self, _token: &str, val: &Decimal) -> (res: String)
        requires
            val.roundable(),
        ensures
            res@ == val.rounded_text(),
    {
        val.to_rounded_text()
    }
}

/// The position of the last token with the given address, where one has it.
pub open spec fn last_with_address(tokens: Seq<Token>, a: Seq<char>) -> int
    decreases tokens.len(),
{
    if tokens.len() == 0 {
        -1
    } else if tokens.last().address@ == a {
        tokens.len() - 1
    } else {
        last_with_address(tokens.drop_last(), a)
    }
}

/// A dictionary built from a list of tokens gives, for an address, the last token in the
/// list with that address, and nothing for an address that no token has.
pub proof fn lemma_get_after_new(tokens: Seq<Token>, a: Seq<char>)
    ensures
        tokens_by_address(tokens).contains_key(a) <==> exists|i: int| 0 <= i < tokens.len() && #[trigger] tokens[i].address@ == a,
        tokens_by_address(tokens).contains_key(a) ==> {
            let i = last_with_address(tokens, a);
            &&& 0 <= i < tokens.len()
            &&& tokens[i].address@ == a
            &&& tokens_by_address(tokens)[a] == tokens[i]
            &&& forall|j: int| i < j < tokens.len() ==> #[trigger] tokens[j].address@ != a
        },
    decreases tokens.len(),
{
    if tokens.len() > 0 {
        let init = tokens.drop_last();
        lemma_get_after_new(init, a);
        if tokens.last().address@ != a {
            if exists|i: int| 0 <= i < tokens.len() && #[trigger] tokens[i].address@ == a {
                let i = choose|i: int| 0 <= i < tokens.len() && #[trigger] tokens[i].address@ == a;
                assert(init[i].address@ == a);
            }
            assert forall|i: int| 0 <= i < init.len() && #[trigger] init[i].address@ == a implies tokens[i].address@ == a by {}
            if tokens_by_address(tokens).contains_key(a) {
                let i = last_with_address(tokens, a);
                assert forall|j: int| i < j < tokens.len() implies #[trigger] tokens[j].address@ != a by {
                    if j < tokens.len() - 1 {
                        assert(tokens[j] == init[j]);
                    }
                }
            }
        } else {
            assert(tokens[tokens.len() - 1].address@ == a);
        }
    }
}

} // verus!
