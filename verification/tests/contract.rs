use archid_marketplace::execute::instantiate;
use archid_marketplace::msg::InstantiateMsg;

#[test]
fn test_instantiate() {
    // instantiate an empty contract
    let (market, res) = instantiate(InstantiateMsg {
        admin: "cosmos2contract".to_string(),
        cw721: "cosmos2contract".to_string(),
    });
    assert_eq!(0, res.messages.len());
    assert_eq!(market.swaps.len(), 0);
    assert_eq!(market.balance, 0);
}
