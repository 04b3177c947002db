# Racing Car

Jogo de corrida 3D arcade (Bevy + Avian). As regras do jogo formam uma
biblioteca verificada com Verus; o executável liga essa biblioteca ao motor
gráfico, à física e ao disco.

## Estrutura

```
src/     biblioteca verificada (crate `racing_car`)
  race       contagem regressiva, cronômetro, checkpoints e voltas
  standings  distância percorrida e classificação do pelotão
  ranking    posições a partir de uma ordem estrita total
  text       números em decimal e o formato m:ss.mmm
  hud        textos do painel de corrida e do menu
  results    textos da tela de resultados
  states     estados do jogo, navegação do menu e câmera
  settings   opções do jogador e recordes
  gearbox    câmbio automático, tração e papéis das rodas
  layers     camadas de colisão
  track      janela de busca no traçado, zebras, grid e adereços
  mesh       índices dos triângulos das malhas da pista
  raster     discos do minimapa e ruído das texturas
  vehicle    nomes, cores e resgate dos carros
  devtools   contador de FPS, gizmos, capturas e motion blur
tests/   testes da biblioteca
app/     o executável: plugins do Bevy, física em ponto flutuante,
         renderização, áudio e gravação do perfil em RON
```

Tempos são inteiros em microssegundos e distâncias em milímetros; tudo o que
depende de ponto flutuante (dinâmica do carro, IA, câmera, spline, malhas e
síntese de áudio) fica no executável.
