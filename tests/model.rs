use gbdt::config::Config;
use gbdt::decision_tree::{Data, DataVec};
use gbdt::gradient_boost::GBDT;
use gbdt_serve::{predict, training_config, ModelStore, Payload, PredictStep};

fn fit(rows: &[([f32; 3], f32)]) -> GBDT {
    let policy = training_config();
    let mut cfg = Config::new();
    cfg.set_feature_size(policy.feature_size);
    cfg.set_max_depth(policy.max_depth);
    let mut data: DataVec =
        rows.iter().map(|(f, l)| Data::new_training_data(f.to_vec(), 1.0, *l, None)).collect();
    let mut model = GBDT::new(&cfg);
    model.fit(&mut data);
    model
}

fn run(store: &ModelStore<GBDT>, year: f32, month: f32, season: f32) -> Vec<f32> {
    let p = Payload { year: year.to_bits(), month: month.to_bits(), season: season.to_bits() };
    match predict(store, p) {
        Ok(PredictStep::Infer { model, batch }) => {
            let data: DataVec = batch
                .iter()
                .map(|v| {
                    Data::new_test_data(
                        vec![f32::from_bits(v.year), f32::from_bits(v.month), f32::from_bits(v.season)],
                        None,
                    )
                })
                .collect();
            model.predict(&data)
        }
        _ => panic!("expected inference"),
    }
}

const LOW: [([f32; 3], f32); 3] = [([2020.0, 1.0, 1.0], 1.0), ([2020.0, 2.0, 1.0], 1.0), ([2021.0, 7.0, 3.0], 1.0)];
const HIGH: [([f32; 3], f32); 3] = [([2020.0, 1.0, 1.0], 50.0), ([2020.0, 2.0, 1.0], 50.0), ([2021.0, 7.0, 3.0], 50.0)];

#[test]
fn one_prediction_per_request() {
    let store = ModelStore::from_loaded(Some(fit(&LOW))).unwrap();
    assert_eq!(run(&store, 2020.0, 1.0, 1.0).len(), 1);
    assert_eq!(run(&store, -5.0, 0.0, 0.0).len(), 1);
}

#[test]
fn promoted_model_changes_prediction() {
    let mut store = ModelStore::from_loaded(Some(fit(&LOW))).unwrap();
    let before = run(&store, 2020.0, 1.0, 1.0)[0];
    store.replace(fit(&HIGH));
    let after = run(&store, 2020.0, 1.0, 1.0)[0];
    assert!((before - 1.0).abs() < 1e-3);
    assert!((after - 50.0).abs() < 1e-3);
}

#[test]
fn persisted_model_predicts_the_same() {
    let model = fit(&HIGH);
    let text = serde_json::to_string(&model).unwrap();
    let reloaded: GBDT = serde_json::from_str(&text).unwrap();
    let probe: DataVec = vec![
        Data::new_test_data(vec![2020.0, 1.0, 1.0], None),
        Data::new_test_data(vec![2030.0, 12.0, 4.0], None),
    ];
    let a = model.predict(&probe);
    let b = reloaded.predict(&probe);
    assert_eq!(a.len(), b.len());
    for (x, y) in a.iter().zip(b.iter()) {
        assert!((x - y).abs() < 1e-5);
    }
}
