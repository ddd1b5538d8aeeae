[package]
name = "pressure_viz"
version = "0.1.0"
edition = "2021"
publish = false

[dependencies]
csv = "*"
minifb = "*"
plotters = "*"
plotters-bitmap = "*"
rumqttc = "*"
