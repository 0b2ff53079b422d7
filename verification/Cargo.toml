[package]
name = "microgroove_sequencer"
version = "0.1.0"
edition = "2021"
publish = false

[dependencies]
heapless = "0.7"
rand = "0.8"
rand_core = "0.6"
midi-types = "0.1"
fugit = "0.3"
embedded-graphics = "0.7"
display-interface = "0.4"
ssd1306 = "0.7"
rotary-encoder-hal = "0.5"
embedded-midi = "0.1"
nb = "1"
defmt = "0.3"
