use std::collections::HashMap;

use archid_marketplace::error::ContractError;
use archid_marketplace::execute::execute;
use archid_marketplace::execute::instantiate;
use archid_marketplace::msg::ExecuteMsg;
use archid_marketplace::msg::InstantiateMsg;
use archid_marketplace::msg::Response;
use archid_marketplace::msg::TransferMsg;
use archid_marketplace::state::BlockInfo;
use archid_marketplace::state::Coin;
use archid_marketplace::state::Expiration;
use archid_marketplace::state::Marketplace;
use archid_marketplace::msg::SwapMsg;
use archid_marketplace::state::SwapType;

const DENOM: &str = "aconst";
const SWAP_ADDR: &str = "marketplace_contract";

/// A minimal host around the marketplace: a bank module, one NFT
/// collection, fungible-token ledgers, and atomic transactions — a failed
/// step rolls the whole transaction back.
struct App {
    market: Marketplace,
    bank: HashMap<String, u128>,
    cw20: HashMap<String, HashMap<String, u128>>,
    allowance: HashMap<(String, String), u128>,
    nft: HashMap<String, String>,
    approved: HashMap<String, String>,
    block: BlockInfo,
}

impl App {
    fn new(admin: &str, cw721: &str) -> App {
        let (market, _res) = instantiate(InstantiateMsg {
            admin: admin.to_string(),
            cw721: cw721.to_string(),
        });
        App {
            market,
            bank: HashMap::new(),
            cw20: HashMap::new(),
            allowance: HashMap::new(),
            nft: HashMap::new(),
            approved: HashMap::new(),
            block: BlockInfo { height: 12345, time: 1571797419879305533 },
        }
    }

    fn mint_native(&mut self, to: &str, amount: u128) {
        *self.bank.entry(to.to_string()).or_insert(0) += amount;
    }

    fn bank_balance(&self, addr: &str) -> u128 {
        *self.bank.get(addr).unwrap_or(&0)
    }

    fn mint_nft(&mut self, token_id: &str, owner: &str) {
        self.nft.insert(token_id.to_string(), owner.to_string());
    }

    fn nft_owner_of(&self, token_id: &str) -> String {
        self.nft.get(token_id).unwrap().clone()
    }

    fn approve_nft(&mut self, owner: &str, token_id: &str) {
        assert_eq!(self.nft_owner_of(token_id), owner);
        self.approved.insert(token_id.to_string(), SWAP_ADDR.to_string());
    }

    fn create_cw20(&mut self, token_addr: &str, owner: &str, balance: u128) {
        let mut balances: HashMap<String, u128> = HashMap::new();
        balances.insert(owner.to_string(), balance);
        self.cw20.insert(token_addr.to_string(), balances);
    }

    fn increase_allowance(&mut self, owner: &str, token: &str, amount: u128) {
        *self.allowance.entry((token.to_string(), owner.to_string())).or_insert(0) += amount;
    }

    fn cw20_balance(&self, token: &str, addr: &str) -> u128 {
        *self.cw20.get(token).and_then(|m| m.get(addr)).unwrap_or(&0)
    }

    fn execute_contract(
        &mut self,
        sender: &str,
        msg: ExecuteMsg,
        funds: &[Coin],
    ) -> Result<Response, ContractError> {
        let snapshot = (
            self.market.clone(),
            self.bank.clone(),
            self.cw20.clone(),
            self.allowance.clone(),
            self.nft.clone(),
            self.approved.clone(),
        );
        let result = self.try_execute(sender, msg, funds);
        if result.is_err() {
            self.market = snapshot.0;
            self.bank = snapshot.1;
            self.cw20 = snapshot.2;
            self.allowance = snapshot.3;
            self.nft = snapshot.4;
            self.approved = snapshot.5;
        }
        result
    }

    fn try_execute(
        &mut self,
        sender: &str,
        msg: ExecuteMsg,
        funds: &[Coin],
    ) -> Result<Response, ContractError> {
        for c in funds {
            if c.denom == DENOM {
                let bal = self.bank_balance(sender);
                if bal < c.amount {
                    return Err(ContractError::InsufficientBalance);
                }
                self.bank.insert(sender.to_string(), bal - c.amount);
                *self.bank.entry(SWAP_ADDR.to_string()).or_insert(0) += c.amount;
            }
        }
        let token_owner: Option<String> = match &msg {
            ExecuteMsg::Create(m) => self.nft.get(&m.token_id).cloned(),
            ExecuteMsg::Finish(m) => match self.market.query_details(&m.id) {
                Ok(d) => self.nft.get(&d.token_id).cloned(),
                Err(_) => None,
            },
            _ => None,
        };
        let attached: u128 = funds.iter().filter(|c| c.denom == DENOM).map(|c| c.amount).sum();
        if self.market.balance.checked_add(attached).is_none() {
            return Err(ContractError::InvalidPayment);
        }
        let funds_vec: Vec<Coin> = funds.to_vec();
        let sender_s = sender.to_string();
        let block = self.block;
        let res = execute(&mut self.market, &block, &sender_s, &funds_vec, msg, &token_owner)?;
        for m in res.messages.iter() {
            self.apply(m)?;
        }
        Ok(res)
    }

    fn apply(&mut self, m: &TransferMsg) -> Result<(), ContractError> {
        match m {
            TransferMsg::NativeSend { to, funds } => {
                for c in funds.iter() {
                    if c.denom == DENOM {
                        let bal = self.bank_balance(SWAP_ADDR);
                        if bal < c.amount {
                            return Err(ContractError::InsufficientBalance);
                        }
                        self.bank.insert(SWAP_ADDR.to_string(), bal - c.amount);
                        *self.bank.entry(to.clone()).or_insert(0) += c.amount;
                    }
                }
                Ok(())
            }
            TransferMsg::Cw20TransferFrom { token, owner, recipient, amount } => {
                let key = (token.clone(), owner.clone());
                let allowed = *self.allowance.get(&key).unwrap_or(&0);
                if allowed < *amount {
                    return Err(ContractError::Unauthorized);
                }
                let balances = self.cw20.entry(token.clone()).or_insert_with(HashMap::new);
                let owner_balance = *balances.get(owner).unwrap_or(&0);
                if owner_balance < *amount {
                    return Err(ContractError::InsufficientBalance);
                }
                balances.insert(owner.clone(), owner_balance - amount);
                *balances.entry(recipient.clone()).or_insert(0) += *amount;
                self.allowance.insert(key, allowed - amount);
                Ok(())
            }
            TransferMsg::NftTransfer { nft_contract: _, recipient, token_id } => {
                let owner = match self.nft.get(token_id) {
                    Some(o) => o.clone(),
                    None => return Err(ContractError::NotFound),
                };
                let spender_ok = self.approved.get(token_id).map(|s| s.as_str())
                    == Some(SWAP_ADDR)
                    || owner == SWAP_ADDR;
                if !spender_ok {
                    return Err(ContractError::Unauthorized);
                }
                self.nft.insert(token_id.clone(), recipient.clone());
                self.approved.remove(token_id);
                Ok(())
            }
        }
    }
}

fn coins(amount: u128) -> Vec<Coin> {
    vec![Coin { denom: DENOM.to_string(), amount }]
}

fn at_height(height: u64) -> Expiration {
    Expiration::AtHeight(height)
}

// After finishing a swap, all swaps for the same token must be removed
// from storage (they would be invalid)
#[test]
fn test_finshing_swap_prunes_storage() {
    let cw721_owner = "original_owner";
    let arch_owner = "arch_owner";
    let mut app = App::new("swap_deployer", "cw721_contract");
    app.mint_native(arch_owner, 10000000000000000000);
    let token_id = "petrify";
    app.mint_nft(token_id, cw721_owner);
    let mk_sale = || SwapMsg {
        id: "firstswap".to_string(),
        payment_token: None,
        token_id: token_id.to_string(),
        expires: at_height(384798573487439743),
        price: 1000000000000000000,
        swap_type: SwapType::Sale,
    };
    app.approve_nft(cw721_owner, token_id);
    app.execute_contract(cw721_owner, ExecuteMsg::Create(mk_sale()), &[]).unwrap();
    // the bidder makes an offer for the same token, for a lower price
    let offer_msg = SwapMsg {
        id: "secondswap".to_string(),
        payment_token: None,
        token_id: token_id.to_string(),
        expires: at_height(384798573487439743),
        price: 100000000000000000,
        swap_type: SwapType::Offer,
    };
    app.execute_contract(arch_owner, ExecuteMsg::Create(offer_msg), &coins(100000000000000000))
        .unwrap();
    assert_eq!(app.bank_balance(SWAP_ADDR), 100000000000000000);
    // the buyer purchases the token, consuming the original swap
    app.execute_contract(arch_owner, ExecuteMsg::Finish(mk_sale()), &coins(1000000000000000000))
        .unwrap();
    assert_eq!(app.nft_owner_of(token_id), arch_owner);
    assert_eq!(app.bank_balance(cw721_owner), 1000000000000000000);
    // the contract has released the escrow
    assert_eq!(app.bank_balance(SWAP_ADDR), 0);
    // the bidder has received the released escrow back: 9, not 8.9
    assert_eq!(app.bank_balance(arch_owner), 9000000000000000000);
    // both swaps are gone from storage
    let limit: u32 = 5;
    let swap_list = app.market.query_list(&None, Some(limit));
    assert_eq!(swap_list.swaps.len(), 0);
}
